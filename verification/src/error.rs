//! What can end the reading of a data source.

use crate::text::{prefixed, wrap};
use vstd::prelude::*;
use vstd::string::StringExecFns;

verus! {

/// A failure reported by a service client, with the client's own words.
#[derive(Debug)]
pub struct ClientError {
    pub message: String,
}

/// A field that a service's answer must carry.
#[derive(Debug, Clone, Copy, PartialEq, Eq, Structural)]
pub enum Field {
    InstanceId,
    InstanceType,
    CpuOptions,
    CoreCount,
    ThreadsPerCore,
    State,
    StateName,
    DbInstanceClass,
    Engine,
    EngineVersion,
    StorageType,
    DbInstanceStatus,
    MultiAz,
    QueryId,
    QueryStatus,
    ResultFieldName,
    ResultFieldValue,
}

/// Why a data source could not be read. Each of these ends the whole run.
#[derive(Debug)]
pub enum FetchError {
    /// The service client failed.
    Client(ClientError),
    /// The service answered without a field that is needed.
    MissingField(Field),
    /// No compute instance carries the configured name.
    InstanceNotFound { name: String },
    /// No database carries the configured identifier.
    DbInstanceNotFound { name: String },
    /// A log query ended in a state other than success.
    UnexpectedStatus { status: String },
    /// A log query was still unfinished when the count of polls ran out.
    PollLimit,
    /// A log query is configured without any column for its rows.
    NoResultColumns,
    /// A row of a log query named a column other than the one expected next.
    ColumnMismatch { expected: String, actual: String },
    /// A row of a table has another number of fields than its header.
    UnequalLengths { expected_len: usize, len: usize },
    /// A timestamp cannot be shown in the configured time zone.
    Timestamp { millis: i64 },
}

/// Why a run cannot be set up.
#[derive(Debug)]
pub enum ContextError {
    /// The zone database knows no zone of the configured name.
    UnknownTimeZone { name: String },
    /// Of the start and the end of the span, only one is given.
    IncompleteRange,
    /// A given start or end is no date and time in the zone.
    InvalidDateTime { text: String },
    /// The span reaches back before the Unix epoch.
    DurationTooLong,
    /// The given start lies after the given end.
    StartAfterEnd,
}

/// The message of an error of setting up.
pub open spec fn context_message_text(error: ContextError) -> Seq<char> {
    match error {
        ContextError::UnknownTimeZone { name } => "Unknown time zone: "@ + name@,
        ContextError::IncompleteRange => "Both start and end arguments must be provided"@,
        ContextError::InvalidDateTime { text } => "Invalid date and time: "@ + text@,
        ContextError::DurationTooLong => "Duration reaches back before the epoch"@,
        ContextError::StartAfterEnd => "Start must not be after end"@,
    }
}

impl ContextError {
    /// The message to end the run with.
    pub fn message(&self) -> (r: String)
        ensures
            r@ == context_message_text(*self),
    {
        match self {
            ContextError::UnknownTimeZone { name } => prefixed("Unknown time zone: ", name.as_str()),
            ContextError::IncompleteRange => String::from_str(
                "Both start and end arguments must be provided",
            ),
            ContextError::InvalidDateTime { text } => prefixed(
                "Invalid date and time: ",
                text.as_str(),
            ),
            ContextError::DurationTooLong => String::from_str(
                "Duration reaches back before the epoch",
            ),
            ContextError::StartAfterEnd => String::from_str("Start must not be after end"),
        }
    }
}

/// The name of a field in messages.
pub open spec fn field_text(field: Field) -> Seq<char> {
    match field {
        Field::InstanceId => "instance id"@,
        Field::InstanceType => "instance type"@,
        Field::CpuOptions => "cpu options"@,
        Field::CoreCount => "cpu core count"@,
        Field::ThreadsPerCore => "cpu threads per core"@,
        Field::State => "state"@,
        Field::StateName => "state name"@,
        Field::DbInstanceClass => "db instance class"@,
        Field::Engine => "engine"@,
        Field::EngineVersion => "engine version"@,
        Field::StorageType => "storage type"@,
        Field::DbInstanceStatus => "db instance status"@,
        Field::MultiAz => "multi az"@,
        Field::QueryId => "query id"@,
        Field::QueryStatus => "query status"@,
        Field::ResultFieldName => "result field name"@,
        Field::ResultFieldValue => "result field value"@,
    }
}

/// The message of an error that names what it is about. The other errors say
/// the same thing whatever caused them.
pub open spec fn message_text(error: FetchError) -> Seq<char> {
    match error {
        FetchError::Client(e) => e.message@,
        FetchError::MissingField(field) => "Missing from response: "@ + field_text(field),
        FetchError::InstanceNotFound { name } => "Unable to find instance with name: "@ + name@,
        FetchError::DbInstanceNotFound { name } => "Unable to find DB instance with name: "@
            + name@,
        FetchError::UnexpectedStatus { status } => "Unexpected status: "@ + status@,
        FetchError::PollLimit => "Query still unfinished after the last poll"@,
        FetchError::NoResultColumns => "No result columns configured"@,
        FetchError::ColumnMismatch { expected, actual } => "Expected column not matched! Expected: "@
            + expected@ + ", Actual: "@ + actual@,
        FetchError::UnequalLengths { expected_len, len } => "Unequal lengths in table"@,
        FetchError::Timestamp { millis } => "Timestamp cannot be shown"@,
    }
}

impl Field {
    /// The name of the field in messages.
    pub fn name(&self) -> (r: &'static str)
        ensures
            r@ == field_text(*self),
    {
        match self {
            Field::InstanceId => "instance id",
            Field::InstanceType => "instance type",
            Field::CpuOptions => "cpu options",
            Field::CoreCount => "cpu core count",
            Field::ThreadsPerCore => "cpu threads per core",
            Field::State => "state",
            Field::StateName => "state name",
            Field::DbInstanceClass => "db instance class",
            Field::Engine => "engine",
            Field::EngineVersion => "engine version",
            Field::StorageType => "storage type",
            Field::DbInstanceStatus => "db instance status",
            Field::MultiAz => "multi az",
            Field::QueryId => "query id",
            Field::QueryStatus => "query status",
            Field::ResultFieldName => "result field name",
            Field::ResultFieldValue => "result field value",
        }
    }
}

impl FetchError {
    /// The message to end the run with.
    pub fn message(&self) -> (r: String)
        ensures
            r@ == message_text(*self),
    {
        match self {
            FetchError::Client(e) => e.message.clone(),
            FetchError::MissingField(field) => prefixed("Missing from response: ", field.name()),
            FetchError::InstanceNotFound { name } => prefixed(
                "Unable to find instance with name: ",
                name.as_str(),
            ),
            FetchError::DbInstanceNotFound { name } => prefixed(
                "Unable to find DB instance with name: ",
                name.as_str(),
            ),
            FetchError::UnexpectedStatus { status } => prefixed("Unexpected status: ", status.as_str()),
            FetchError::PollLimit => String::from_str("Query still unfinished after the last poll"),
            FetchError::NoResultColumns => String::from_str("No result columns configured"),
            FetchError::ColumnMismatch { expected, actual } => {
                let mut s = wrap(
                    "Expected column not matched! Expected: ",
                    expected.as_str(),
                    ", Actual: ",
                );
                s.append(actual.as_str());
                s
            },
            FetchError::UnequalLengths { .. } => String::from_str("Unequal lengths in table"),
            FetchError::Timestamp { .. } => String::from_str("Timestamp cannot be shown"),
        }
    }
}

} // verus!
