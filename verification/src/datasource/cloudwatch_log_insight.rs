//! Log queries: a query is started, polled until it has ended, and its rows
//! become a table whose columns are checked against the configured ones.

use crate::config::CloudwatchLogInsightConfig;
use crate::context::DateTimeRange;
use crate::error::{ClientError, FetchError, Field};
use crate::prompt::{carries, PromptData};
use crate::table::{is_text, no_data_text, table_text, Table};
use crate::text::{same_text, texts, wrap};
use vstd::prelude::*;
use vstd::string::StringExecFns;

verus! {

/// The state of a log query as the service reports it.
#[derive(Debug)]
pub enum QueryStatus {
    Cancelled,
    Complete,
    Failed,
    Running,
    Scheduled,
    Timeout,
    /// A state this library does not know, with the text the service gave.
    UnknownValue(String),
}

/// One named value in a row of a query's result.
#[derive(Debug)]
pub struct ResultField {
    pub field: Option<String>,
    pub value: Option<String>,
}

/// The answer to starting a query.
#[derive(Debug)]
pub struct StartQueryOutput {
    pub query_id: Option<String>,
}

/// The answer to asking for a query's results.
#[derive(Debug)]
pub struct GetQueryResultsOutput {
    pub status: Option<QueryStatus>,
    pub results: Vec<Vec<ResultField>>,
}

/// What starting a query asks of the service: the log group, the query, and
/// the span of time in milliseconds after the Unix epoch.
#[derive(Debug)]
pub struct StartQueryInput {
    pub log_group_name: String,
    pub query: String,
    pub start_time: i64,
    pub end_time: i64,
}

/// What polling came to and what it took: the answer that reported success
/// or the error that ended the polling, the number of polls made, and the
/// number of waits between them.
#[derive(Debug)]
pub struct Polled {
    pub result: Result<GetQueryResultsOutput, FetchError>,
    pub polls: u64,
    pub waits: u64,
}

/// The log service as this module uses it.
pub trait CloudwatchLogsClient {
    /// Starts `query` on a log group over a span of time, given in
    /// milliseconds after the Unix epoch.
    fn start_query(
        &self,
        log_group_name: &str,
        query: &str,
        start_time: i64,
        end_time: i64,
    ) -> Result<StartQueryOutput, ClientError>;

    /// Asks how the query of this identifier stands and for its rows.
    fn get_query_results(&self, query_id: String) -> Result<GetQueryResultsOutput, ClientError>;
}

/// Something that can let time pass.
pub trait Pause {
    /// Returns when `seconds` seconds have passed.
    fn pause(&self, seconds: u64);
}

/// What to do after a poll.
#[derive(Debug, Clone, Copy, PartialEq, Eq, Structural)]
pub enum PollAction {
    /// The query succeeded: read its rows.
    Finish,
    /// The query is under way: wait, then poll again.
    Wait,
    /// The query ended otherwise: give up.
    Abort,
}

/// The seconds between two polls.
pub const POLL_INTERVAL_SECONDS: u64 = 1;

/// The number of polls after which reading a log query gives a query up
/// that is still under way: as many as a 64-bit counter can count, which at
/// a poll a second no run ever reaches.
pub const POLL_LIMIT: u64 = u64::MAX;

/// The text of a status.
pub open spec fn status_text(status: QueryStatus) -> Seq<char> {
    match status {
        QueryStatus::Cancelled => "Cancelled"@,
        QueryStatus::Complete => "Complete"@,
        QueryStatus::Failed => "Failed"@,
        QueryStatus::Running => "Running"@,
        QueryStatus::Scheduled => "Scheduled"@,
        QueryStatus::Timeout => "Timeout"@,
        QueryStatus::UnknownValue(text) => text@,
    }
}

/// What a status calls for: success ends the polling, a query that runs or
/// waits to run is polled again, and every other status is a failure.
pub open spec fn action_of(status: QueryStatus) -> PollAction {
    match status {
        QueryStatus::Complete => PollAction::Finish,
        QueryStatus::Running => PollAction::Wait,
        QueryStatus::Scheduled => PollAction::Wait,
        _ => PollAction::Abort,
    }
}

/// Whether a poll with this answer is followed by a wait and another poll:
/// the service answered, and reports the query as under way.
pub open spec fn waits_on(answer: Result<GetQueryResultsOutput, ClientError>) -> bool {
    answer matches Ok(output) && output.status matches Some(status) && action_of(status)
        == PollAction::Wait
}

/// Whether `result` is what an answer that ends the polling comes to. A
/// failure of the service is handed on. An answer without status lacks a
/// field. An answer that reports success is the result. An answer that
/// reports a failure gives the error that carries the status's text.
pub open spec fn ends_with(
    answer: Result<GetQueryResultsOutput, ClientError>,
    result: Result<GetQueryResultsOutput, FetchError>,
) -> bool {
    match answer {
        Err(e) => result == Err::<GetQueryResultsOutput, FetchError>(FetchError::Client(e)),
        Ok(output) => match output.status {
            None => result == Err::<GetQueryResultsOutput, FetchError>(
                FetchError::MissingField(Field::QueryStatus),
            ),
            Some(status) => match action_of(status) {
                PollAction::Finish => result == Ok::<GetQueryResultsOutput, FetchError>(output),
                PollAction::Wait => false,
                PollAction::Abort => (result matches Err(FetchError::UnexpectedStatus { status: text })
                    && text@ == status_text(status)),
            },
        },
    }
}

/// Whether `next` is what follows a poll with this answer: nothing yet
/// where the query is under way, else what the answer comes to.
pub open spec fn follows(
    answer: Result<GetQueryResultsOutput, ClientError>,
    next: Result<Option<GetQueryResultsOutput>, FetchError>,
) -> bool {
    if waits_on(answer) {
        next == Ok::<Option<GetQueryResultsOutput>, FetchError>(None)
    } else {
        match next {
            Ok(Some(output)) => ends_with(answer, Ok(output)),
            Ok(None) => false,
            Err(e) => ends_with(answer, Err(e)),
        }
    }
}

/// Whether `polled` is what polling with at most `limit` polls comes to when
/// the service gives `answers` in turn. There is one answer for each poll.
/// Every answer but the last reports the query as under way, and so does the
/// last where the polls ran out; one wait follows each such answer. An
/// answer that does not ends the polling: no wait and no poll follows it,
/// and the result is what that answer comes to.
pub open spec fn is_run(
    answers: Seq<Result<GetQueryResultsOutput, ClientError>>,
    limit: u64,
    polled: Polled,
) -> bool {
    &&& answers.len() == polled.polls
    &&& polled.polls <= limit
    &&& forall|i: int| 0 <= i < answers.len() - 1 ==> waits_on(#[trigger] answers[i])
    &&& if answers.len() == 0 || waits_on(answers.last()) {
        &&& polled.polls == limit
        &&& polled.waits == polled.polls
        &&& polled.result == Err::<GetQueryResultsOutput, FetchError>(FetchError::PollLimit)
    } else {
        &&& polled.waits == polled.polls - 1
        &&& ends_with(answers.last(), polled.result)
    }
}

/// Whether `block` is what the query comes to when polling ends with
/// `output`: the answer reports success, and the block carries the query's
/// description and the table of that answer's rows.
pub open spec fn is_block_of_answer(
    block: PromptData,
    config: CloudwatchLogInsightConfig,
    output: GetQueryResultsOutput,
) -> bool {
    &&& output.status matches Some(status) && action_of(status) == PollAction::Finish
    &&& extracted(config.result_columns@, output.results@) is Ok
    &&& carries(
        block,
        description_of(config),
        Some(extracted(config.result_columns@, output.results@)->Ok_0),
    )
}

/// What starting the configured query over a span of time asks for.
pub open spec fn request_of(config: CloudwatchLogInsightConfig, range: DateTimeRange) -> (
    Seq<char>,
    Seq<char>,
    i64,
    i64,
) {
    (config.log_group_name@, config.query@, range.start_time, range.end_time)
}

/// The three description lines of a log query.
pub open spec fn description_of(config: CloudwatchLogInsightConfig) -> Seq<Seq<char>> {
    seq![
        "Information: [Cloudwatch Log Insights]"@,
        "Description: ["@ + config.description@ + "]"@,
        "Log Group: [`"@ + config.log_group_name@ + "`]"@,
    ]
}

/// The column after `cursor`, the first again after the last.
pub open spec fn next_cursor(cursor: int, columns: int) -> int {
    if cursor + 1 < columns {
        cursor + 1
    } else {
        0
    }
}

/// Takes one field of a row into account. The row pointer that the query
/// engine adds is passed over. Any other field must carry the name of the
/// column at `cursor`; its value joins `values` and the cursor moves on.
pub open spec fn scan_field(
    columns: Seq<String>,
    field: ResultField,
    values: Seq<Seq<char>>,
    cursor: int,
) -> Result<(Seq<Seq<char>>, int), FetchError> {
    match field.field {
        None => Err(FetchError::MissingField(Field::ResultFieldName)),
        Some(name) => if name@ == "@ptr"@ {
            Ok((values, cursor))
        } else if name@ != columns[cursor]@ {
            Err(FetchError::ColumnMismatch { expected: columns[cursor], actual: name })
        } else {
            match field.value {
                None => Err(FetchError::MissingField(Field::ResultFieldValue)),
                Some(value) => Ok((values.push(value@), next_cursor(cursor, columns.len() as int))),
            }
        },
    }
}

/// The values of a row and the cursor behind it, or what its first offending
/// field comes to. The cursor enters the row at `start`.
pub open spec fn scan_row(columns: Seq<String>, row: Seq<ResultField>, start: int) -> Result<
    (Seq<Seq<char>>, int),
    FetchError,
>
    decreases row.len(),
{
    if row.len() == 0 {
        Ok((Seq::empty(), start))
    } else {
        match scan_row(columns, row.drop_last(), start) {
            Err(e) => Err(e),
            Ok((values, cursor)) => scan_field(columns, row.last(), values, cursor),
        }
    }
}

/// The records of all rows and the cursor behind the last, or what the first
/// offending row comes to. The cursor starts at the first column and runs on
/// from row to row; a row must give as many values as there are columns.
pub open spec fn scan_rows(columns: Seq<String>, rows: Seq<Vec<ResultField>>) -> Result<
    (Seq<Seq<Seq<char>>>, int),
    FetchError,
>
    decreases rows.len(),
{
    if rows.len() == 0 {
        Ok((Seq::empty(), 0))
    } else {
        match scan_rows(columns, rows.drop_last()) {
            Err(e) => Err(e),
            Ok((records, cursor)) => match scan_row(columns, rows.last()@, cursor) {
                Err(e) => Err(e),
                Ok((values, next)) => if values.len() != columns.len() {
                    Err(
                        FetchError::UnequalLengths {
                            expected_len: columns.len() as usize,
                            len: values.len() as usize,
                        },
                    )
                } else {
                    Ok((records.push(values), next))
                },
            },
        }
    }
}

/// The table of a query's rows under the configured columns.
pub open spec fn extracted(columns: Seq<String>, rows: Seq<Vec<ResultField>>) -> Result<
    Seq<char>,
    FetchError,
> {
    match scan_rows(columns, rows) {
        Err(e) => Err(e),
        Ok((records, cursor)) => Ok(table_text(texts(columns), records)),
    }
}

impl QueryStatus {
    /// The text of the status.
    pub fn text(&self) -> (r: String)
        ensures
            r@ == status_text(*self),
    {
        match self {
            QueryStatus::Cancelled => String::from_str("Cancelled"),
            QueryStatus::Complete => String::from_str("Complete"),
            QueryStatus::Failed => String::from_str("Failed"),
            QueryStatus::Running => String::from_str("Running"),
            QueryStatus::Scheduled => String::from_str("Scheduled"),
            QueryStatus::Timeout => String::from_str("Timeout"),
            QueryStatus::UnknownValue(text) => text.clone(),
        }
    }
}

/// Whether the status reports that the query ended otherwise than in
/// success.
pub fn is_failure(status: &QueryStatus) -> (r: bool)
    ensures
        r == (action_of(*status) == PollAction::Abort),
{
    match status {
        QueryStatus::Complete => false,
        QueryStatus::Running => false,
        QueryStatus::Scheduled => false,
        _ => true,
    }
}

/// Decides what follows a poll that reported `status`, a status that is no
/// failure: to read the rows, or to wait and poll again.
pub fn poll_step(status: &QueryStatus) -> (r: PollAction)
    requires
        action_of(*status) != PollAction::Abort,
    ensures
        r == action_of(*status),
{
    match status {
        QueryStatus::Complete => PollAction::Finish,
        _ => PollAction::Wait,
    }
}

/// What follows a poll with this answer: nothing yet where the query is
/// under way, the answer itself where it reports success, and else the error
/// that ends the polling.
pub fn after_poll(answer: Result<GetQueryResultsOutput, ClientError>) -> (r: Result<
    Option<GetQueryResultsOutput>,
    FetchError,
>)
    ensures
        follows(answer, r),
{
    let output = match answer {
        Ok(output) => output,
        Err(e) => {
            return Err(FetchError::Client(e));
        },
    };
    let action = match &output.status {
        None => {
            return Err(FetchError::MissingField(Field::QueryStatus));
        },
        Some(status) => {
            if is_failure(status) {
                return Err(FetchError::UnexpectedStatus { status: status.text() });
            }
            poll_step(status)
        },
    };
    match action {
        PollAction::Finish => Ok(Some(output)),
        _ => Ok(None),
    }
}

/// When the service's answers report the query as under way `k` times and
/// then give an answer that does not, polling with a limit above `k` makes
/// `k + 1` polls and `k` waits, and ends in what that answer comes to: no
/// wait and no poll follows it.
pub proof fn lemma_waits_before_verdict(
    script: Seq<Result<GetQueryResultsOutput, ClientError>>,
    k: int,
    answers: Seq<Result<GetQueryResultsOutput, ClientError>>,
    limit: u64,
    polled: Polled,
)
    requires
        0 <= k < script.len(),
        k < limit,
        forall|i: int| 0 <= i < k ==> waits_on(#[trigger] script[i]),
        !waits_on(script[k]),
        answers.len() <= script.len(),
        answers == script.take(answers.len() as int),
        is_run(answers, limit, polled),
    ensures
        polled.polls == k + 1,
        polled.waits == k,
        ends_with(script[k], polled.result),
{
    let n = answers.len() as int;
    if n == 0 || waits_on(answers.last()) {
        if n > 0 {
            assert(answers[n - 1] == script[n - 1]);
        }
        assert(false);
    } else {
        assert(answers[n - 1] == script[n - 1]);
        if n - 1 > k {
            assert(answers[k] == script[k]);
            assert(waits_on(answers[k]));
        }
    }
}

/// What starting the configured query over the run's span of time asks of
/// the service.
pub fn build_request(config: &CloudwatchLogInsightConfig, range: &DateTimeRange) -> (r:
    StartQueryInput)
    ensures
        (r.log_group_name@, r.query@, r.start_time, r.end_time) == request_of(*config, *range),
{
    StartQueryInput {
        log_group_name: config.log_group_name.clone(),
        query: config.query.clone(),
        start_time: range.start_time,
        end_time: range.end_time,
    }
}

/// The identifier of a started query: the service's failure is handed on,
/// and an answer without identifier lacks a field.
pub fn query_id_of(answer: Result<StartQueryOutput, ClientError>) -> (r: Result<String, FetchError>)
    ensures
        match answer {
            Err(e) => r == Err::<String, FetchError>(FetchError::Client(e)),
            Ok(output) => match output.query_id {
                None => r == Err::<String, FetchError>(FetchError::MissingField(Field::QueryId)),
                Some(id) => r == Ok::<String, FetchError>(id),
            },
        },
{
    match answer {
        Err(e) => Err(FetchError::Client(e)),
        Ok(output) => match output.query_id {
            None => Err(FetchError::MissingField(Field::QueryId)),
            Some(id) => Ok(id),
        },
    }
}

/// The description lines of a log query.
pub fn build_description(config: &CloudwatchLogInsightConfig) -> (r: Vec<String>)
    ensures
        texts(r@) == description_of(*config),
{
    let mut lines: Vec<String> = Vec::new();
    lines.push(String::from_str("Information: [Cloudwatch Log Insights]"));
    lines.push(wrap("Description: [", config.description.as_str(), "]"));
    lines.push(wrap("Log Group: [`", config.log_group_name.as_str(), "`]"));
    lines
}

/// Whether `r` is what `expected` describes: the same values and cursor, or
/// the same error.
pub open spec fn is_scan(r: Result<(Vec<String>, usize), FetchError>, expected: Result<
    (Seq<Seq<char>>, int),
    FetchError,
>) -> bool {
    match expected {
        Ok((values, cursor)) => r matches Ok((v, c)) && texts(v@) == values && c == cursor,
        Err(e) => r == Err::<(Vec<String>, usize), FetchError>(e),
    }
}

/// Whether reading a row meets no fault: every field has its name, every
/// field but the row pointer carries the name of the column the cursor
/// stands at, and has its value.
pub open spec fn row_is_sound(columns: Seq<String>, row: Seq<ResultField>, start: int) -> bool {
    scan_row(columns, row, start) is Ok
}

/// Whether an error is a fault of the answer's rows: a column that does not
/// match, or a field that lacks its name or its value.
pub open spec fn is_fault(error: FetchError) -> bool {
    error is ColumnMismatch || error is MissingField
}

/// Whether reading the rows meets no fault before it ends.
pub open spec fn rows_are_sound(columns: Seq<String>, rows: Seq<Vec<ResultField>>) -> bool {
    !(scan_rows(columns, rows) matches Err(e) && is_fault(e))
}

/// The fault that reading a row meets first, if it meets one.
pub fn row_fault(columns: &Vec<String>, row: &Vec<ResultField>, start: usize) -> (r: Option<
    FetchError,
>)
    requires
        start < columns@.len(),
    ensures
        match scan_row(columns@, row@, start as int) {
            Ok(_) => r is None,
            Err(e) => r == Some(e),
        },
{
    match scan(columns, row, start) {
        Ok(_) => None,
        Err(e) => Some(e),
    }
}

/// Reads the values of a row that is sound, the cursor entering at `start`:
/// the values of all fields but the row pointer, in their order, and the
/// cursor behind the row.
pub fn read_row(columns: &Vec<String>, row: &Vec<ResultField>, start: usize) -> (r: (
    Vec<String>,
    usize,
))
    requires
        start < columns@.len(),
        row_is_sound(columns@, row@, start as int),
    ensures
        scan_row(columns@, row@, start as int) == Ok::<(Seq<Seq<char>>, int), FetchError>(
            (texts(r.0@), r.1 as int),
        ),
        r.1 < columns@.len(),
{
    match scan(columns, row, start) {
        Ok(read) => read,
        Err(_) => vstd::pervasive::unreached(),
    }
}

/// Reads the values of one row, checking each field's name against the
/// column that the cursor stands at.
fn scan(columns: &Vec<String>, row: &Vec<ResultField>, start: usize) -> (r: Result<
    (Vec<String>, usize),
    FetchError,
>)
    requires
        start < columns@.len(),
    ensures
        is_scan(r, scan_row(columns@, row@, start as int)),
        r matches Ok((v, c)) ==> c < columns@.len(),
{
    let mut values: Vec<String> = Vec::new();
    let mut cursor: usize = start;
    let mut i: usize = 0;
    let width: usize = columns.len();
    assert(texts(values@) == Seq::<Seq<char>>::empty());
    while i < row.len()
        invariant
            i <= row.len(),
            width == columns@.len(),
            cursor < width,
            scan_row(columns@, row@.take(i as int), start as int) == Ok::<
                (Seq<Seq<char>>, int),
                FetchError,
            >((texts(values@), cursor as int)),
        decreases row.len() - i,
    {
        let ghost seen = texts(values@);
        assert(row@.take(i + 1).drop_last() == row@.take(i as int));
        let field = &row[i];
        match &field.field {
            None => {
                proof {
                    lemma_scan_row_fails(columns@, row@, start as int, i + 1);
                }
                return Err(FetchError::MissingField(Field::ResultFieldName));
            },
            Some(name) => {
                if !same_text(name, "@ptr") {
                    if *name != columns[cursor] {
                        proof {
                            lemma_scan_row_fails(columns@, row@, start as int, i + 1);
                        }
                        return Err(
                            FetchError::ColumnMismatch {
                                expected: columns[cursor].clone(),
                                actual: name.clone(),
                            },
                        );
                    }
                    match &field.value {
                        None => {
                            proof {
                                lemma_scan_row_fails(columns@, row@, start as int, i + 1);
                            }
                            return Err(FetchError::MissingField(Field::ResultFieldValue));
                        },
                        Some(value) => {
                            values.push(value.clone());
                            assert(texts(values@) == seen.push(value@));
                            cursor = if cursor + 1 < width {
                                cursor + 1
                            } else {
                                0
                            };
                        },
                    }
                }
            },
        }
        i += 1;
    }
    assert(row@.take(row.len() as int) == row@);
    Ok((values, cursor))
}

/// The column that the cursor stands at after `n` fields were taken, having
/// entered at `start`: the columns are gone through again and again.
pub open spec fn cycled(start: int, n: int, columns: int) -> int {
    (start + n) % columns
}

/// Whether a field is an ordinary one that carries the name `column` and a
/// value.
pub open spec fn matches_column(field: ResultField, column: String) -> bool {
    &&& field.field matches Some(name)
    &&& name@ != "@ptr"@
    &&& name@ == column@
    &&& field.value is Some
}

/// A row of ordinary fields that carry the names of the columns in their
/// cycle gives its values in order, and leaves the cursor as many columns on
/// as the row has fields.
pub proof fn lemma_matching_row(columns: Seq<String>, row: Seq<ResultField>, start: int)
    requires
        0 <= start < columns.len(),
        forall|i: int|
            0 <= i < row.len() ==> matches_column(
                #[trigger] row[i],
                columns[cycled(start, i, columns.len() as int)],
            ),
    ensures
        scan_row(columns, row, start) == Ok::<(Seq<Seq<char>>, int), FetchError>(
            (
                Seq::new(row.len(), |i: int| row[i].value->0@),
                cycled(start, row.len() as int, columns.len() as int),
            ),
        ),
    decreases row.len(),
{
    let n = columns.len() as int;
    if row.len() > 0 {
        let front = row.drop_last();
        let k = front.len() as int;
        lemma_matching_row(columns, front, start);
        assert(next_cursor(cycled(start, k, n), n) == cycled(start, k + 1, n)) by {
            lemma_cycle_step(start + k, n);
        }
        assert(Seq::new(front.len(), |i: int| front[i].value->0@).push(row[k].value->0@)
            == Seq::new(row.len(), |i: int| row[i].value->0@));
    } else {
        assert(cycled(start, 0, n) == start) by {
            vstd::arithmetic::div_mod::lemma_small_mod(start as nat, n as nat);
        }
        assert(Seq::<Seq<char>>::empty() == Seq::new(row.len(), |i: int| row[i].value->0@));
    }
}

/// Going one column on, and back to the first after the last, is adding one
/// in the cycle.
proof fn lemma_cycle_step(x: int, n: int)
    requires
        0 <= x,
        0 < n,
    ensures
        next_cursor(x % n, n) == (x + 1) % n,
{
    vstd::arithmetic::div_mod::lemma_fundamental_div_mod(x, n);
    vstd::arithmetic::div_mod::lemma_fundamental_div_mod(x + 1, n);
    vstd::arithmetic::div_mod::lemma_mod_bound(x, n);
    vstd::arithmetic::div_mod::lemma_mod_bound(x + 1, n);
    let q = x / n;
    let r = x % n;
    if r + 1 < n {
        assert(x + 1 == q * n + (r + 1)) by (nonlinear_arith)
            requires
                x == n * q + r,
        ;
        vstd::arithmetic::div_mod::lemma_fundamental_div_mod_converse(x + 1, n, q, r + 1);
    } else {
        assert(x + 1 == (q + 1) * n + 0) by (nonlinear_arith)
            requires
                x == n * q + r,
                r + 1 == n,
        ;
        vstd::arithmetic::div_mod::lemma_fundamental_div_mod_converse(x + 1, n, q + 1, 0);
    }
}

/// The first field of a row that carries another name than the column the
/// cycle has come to ends the reading of the row, and the error names both
/// the column that was expected and the name that was found.
pub proof fn lemma_first_mismatch(
    columns: Seq<String>,
    row: Seq<ResultField>,
    start: int,
    at: int,
)
    requires
        0 <= start < columns.len(),
        0 <= at < row.len(),
        forall|i: int|
            0 <= i < at ==> matches_column(
                #[trigger] row[i],
                columns[cycled(start, i, columns.len() as int)],
            ),
        row[at].field is Some,
        row[at].field->0@ != "@ptr"@,
        row[at].field->0@ != columns[cycled(start, at, columns.len() as int)]@,
    ensures
        scan_row(columns, row, start) == Err::<(Seq<Seq<char>>, int), FetchError>(
            FetchError::ColumnMismatch {
                expected: columns[cycled(start, at, columns.len() as int)],
                actual: row[at].field->0,
            },
        ),
{
    let front = row.take(at);
    let upto = row.take(at + 1);
    lemma_matching_row(columns, front, start);
    assert(upto.drop_last() == front);
    lemma_scan_row_fails(columns, row, start, at + 1);
}

/// Once a front part of a row has failed, the whole row fails the same way.
pub proof fn lemma_scan_row_fails(columns: Seq<String>, row: Seq<ResultField>, start: int, n: int)
    requires
        0 <= n <= row.len(),
        scan_row(columns, row.take(n), start) is Err,
    ensures
        scan_row(columns, row, start) == scan_row(columns, row.take(n), start),
    decreases row.len() - n,
{
    if n < row.len() {
        let longer = row.take(n + 1);
        assert(longer.drop_last() == row.take(n));
        lemma_scan_row_fails(columns, row, start, n + 1);
    } else {
        assert(row.take(n) == row);
    }
}

/// Once a front part of the rows has failed, all the rows fail the same way.
pub proof fn lemma_scan_rows_fails(columns: Seq<String>, rows: Seq<Vec<ResultField>>, n: int)
    requires
        0 <= n <= rows.len(),
        scan_rows(columns, rows.take(n)) is Err,
    ensures
        scan_rows(columns, rows) == scan_rows(columns, rows.take(n)),
    decreases rows.len() - n,
{
    if n < rows.len() {
        let longer = rows.take(n + 1);
        assert(longer.drop_last() == rows.take(n));
        lemma_scan_rows_fails(columns, rows, n + 1);
    } else {
        assert(rows.take(n) == rows);
    }
}

/// The fault that reading the rows of an answer meets before it ends, if it
/// meets one: the first column that does not match, or the first field that
/// lacks its name or its value.
pub fn fault_of(output: &GetQueryResultsOutput, config: &CloudwatchLogInsightConfig) -> (r: Option<
    FetchError,
>)
    requires
        config.result_columns@.len() > 0,
    ensures
        rows_are_sound(config.result_columns@, output.results@) ==> r is None,
        !rows_are_sound(config.result_columns@, output.results@) ==> (r matches Some(e)
            && scan_rows(config.result_columns@, output.results@) == Err::<
            (Seq<Seq<Seq<char>>>, int),
            FetchError,
        >(e)),
{
    let columns = &config.result_columns;
    let rows = &output.results;
    let mut cursor: usize = 0;
    let mut i: usize = 0;
    let ghost mut records: Seq<Seq<Seq<char>>> = Seq::empty();
    while i < rows.len()
        invariant
            columns == &config.result_columns,
            rows == &output.results,
            i <= rows.len(),
            cursor < columns@.len(),
            scan_rows(columns@, rows@.take(i as int)) == Ok::<
                (Seq<Seq<Seq<char>>>, int),
                FetchError,
            >((records, cursor as int)),
        decreases rows.len() - i,
    {
        assert(rows@.take(i + 1).drop_last() == rows@.take(i as int));
        match scan(columns, &rows[i], cursor) {
            Err(e) => {
                proof {
                    lemma_scan_row_errors(columns@, rows@[i as int]@, cursor as int);
                    lemma_scan_rows_fails(columns@, rows@, i + 1);
                }
                return Some(e);
            },
            Ok((values, next)) => {
                if values.len() != columns.len() {
                    proof {
                        lemma_scan_rows_fails(columns@, rows@, i + 1);
                    }
                    return None;
                }
                proof {
                    records = records.push(texts(values@));
                }
                cursor = next;
            },
        }
        i += 1;
    }
    assert(rows@.take(rows.len() as int) == rows@);
    None
}

/// The rows of an answer as a table under the configured columns, for rows
/// that are sound. An answer without rows gives the fixed text that stands
/// for an empty table.
pub fn extract_to_csv(output: &GetQueryResultsOutput, config: &CloudwatchLogInsightConfig) -> (r:
    Result<Option<String>, FetchError>)
    requires
        config.result_columns@.len() > 0,
        rows_are_sound(config.result_columns@, output.results@),
    ensures
        is_text(r, extracted(config.result_columns@, output.results@)),
        output.results@.len() == 0 ==> (r matches Ok(Some(s)) && s@ == no_data_text()),
        r matches Ok(data) ==> data is Some,
        r matches Err(e) ==> e is UnequalLengths,
{
    proof {
        lemma_extraction_errors(config.result_columns@, output.results@);
    }
    extract(output, config)
}

/// The rows of an answer as a table under the configured columns, or what
/// ends their reading.
fn extract(output: &GetQueryResultsOutput, config: &CloudwatchLogInsightConfig) -> (r: Result<
    Option<String>,
    FetchError,
>)
    requires
        config.result_columns@.len() > 0,
    ensures
        is_text(r, extracted(config.result_columns@, output.results@)),
        output.results@.len() == 0 ==> (r matches Ok(Some(s)) && s@ == no_data_text()),
        r matches Ok(data) ==> data is Some,
{
    let columns = &config.result_columns;
    let rows = &output.results;
    let mut table = Table::new(columns);
    let mut cursor: usize = 0;
    let mut i: usize = 0;
    while i < rows.len()
        invariant
            columns == &config.result_columns,
            rows == &output.results,
            i <= rows.len(),
            cursor < columns@.len(),
            table.header() == texts(columns@),
            scan_rows(columns@, rows@.take(i as int)) == Ok::<
                (Seq<Seq<Seq<char>>>, int),
                FetchError,
            >((table.rows(), cursor as int)),
        decreases rows.len() - i,
    {
        assert(rows@.take(i + 1).drop_last() == rows@.take(i as int));
        match scan(columns, &rows[i], cursor) {
            Err(e) => {
                proof {
                    lemma_scan_rows_fails(columns@, rows@, i + 1);
                }
                return Err(e);
            },
            Ok((values, next)) => {
                match table.add_row(&values) {
                    Err(e) => {
                        proof {
                            lemma_scan_rows_fails(columns@, rows@, i + 1);
                        }
                        return Err(e);
                    },
                    Ok(t) => {
                        table = t;
                    },
                }
                cursor = next;
            },
        }
        i += 1;
    }
    assert(rows@.take(rows.len() as int) == rows@);
    Ok(Some(table.finish()))
}

/// What a query that has succeeded contributes where its rows are sound:
/// its description and the table of its rows.
pub fn completed(config: &CloudwatchLogInsightConfig, output: &GetQueryResultsOutput) -> (r:
    Result<PromptData, FetchError>)
    requires
        config.result_columns@.len() > 0,
        rows_are_sound(config.result_columns@, output.results@),
    ensures
        match extracted(config.result_columns@, output.results@) {
            Ok(table) => (r matches Ok(block) && carries(
                block,
                description_of(*config),
                Some(table),
            )),
            Err(e) => r == Err::<PromptData, FetchError>(e),
        },
{
    let description = build_description(config);
    match extract_to_csv(output, config) {
        Ok(data) => Ok(PromptData { description, data }),
        Err(e) => Err(e),
    }
}

/// What a query that has succeeded contributes, whatever is configured and
/// whatever the rows: an error where no column is configured, the fault of
/// the rows where they are not sound, and else the query's description and
/// the table of its rows.
pub fn finished(config: &CloudwatchLogInsightConfig, output: &GetQueryResultsOutput) -> (r:
    Result<PromptData, FetchError>)
    ensures
        config.result_columns@.len() == 0 ==> r == Err::<PromptData, FetchError>(
            FetchError::NoResultColumns,
        ),
        config.result_columns@.len() > 0 ==> match extracted(
            config.result_columns@,
            output.results@,
        ) {
            Ok(table) => (r matches Ok(block) && carries(
                block,
                description_of(*config),
                Some(table),
            )),
            Err(e) => r == Err::<PromptData, FetchError>(e),
        },
{
    if config.result_columns.len() == 0 {
        return Err(FetchError::NoResultColumns);
    }
    match fault_of(output, config) {
        Some(e) => Err(e),
        None => completed(config, output),
    }
}

/// Polls a query until an answer ends the polling or `limit` polls were
/// made, waiting a second after every poll that finds the query under way.
/// Whatever the service answers, what comes back is the run of polling over
/// the answers that were given.
pub fn poll_query<C: CloudwatchLogsClient, P: Pause>(
    client: &C,
    pause: &P,
    query_id: &String,
    limit: u64,
) -> (polled: Polled)
    ensures
        exists|answers: Seq<Result<GetQueryResultsOutput, ClientError>>| #[trigger]
            is_run(answers, limit, polled),
        polled.result matches Ok(output) ==> (output.status matches Some(status) && action_of(
            status,
        ) == PollAction::Finish),
        polled.result matches Err(e) ==> e is Client || e is UnexpectedStatus || e is PollLimit
            || e == FetchError::MissingField(Field::QueryStatus),
        polled.result matches Err(FetchError::UnexpectedStatus { status }) ==> exists|
            s: QueryStatus,
        |
            action_of(s) == PollAction::Abort && status@ == #[trigger] status_text(s),
        limit == 0 ==> (polled.result matches Err(e) && e is PollLimit),
{
    let mut polls: u64 = 0;
    let ghost mut answers: Seq<Result<GetQueryResultsOutput, ClientError>> = Seq::empty();
    while polls < limit
        invariant
            polls <= limit,
            answers.len() == polls,
            forall|i: int| 0 <= i < answers.len() ==> waits_on(#[trigger] answers[i]),
        decreases limit - polls,
    {
        let answer = client.get_query_results(query_id.clone());
        let ghost given = answer;
        proof {
            answers = answers.push(given);
        }
        match after_poll(answer) {
            Ok(None) => {
                pause.pause(POLL_INTERVAL_SECONDS);
            },
            Ok(Some(output)) => {
                let polled = Polled { result: Ok(output), polls: polls + 1, waits: polls };
                assert(is_run(answers, limit, polled));
                return polled;
            },
            Err(e) => {
                let polled = Polled { result: Err(e), polls: polls + 1, waits: polls };
                assert(is_run(answers, limit, polled));
                proof {
                    if e is UnexpectedStatus {
                        assert(status_text(given->Ok_0.status->0) == e->status@);
                    }
                }
                return polled;
            },
        }
        polls += 1;
    }
    let polled = Polled { result: Err(FetchError::PollLimit), polls, waits: polls };
    assert(is_run(answers, limit, polled));
    polled
}

/// Reads a log query: starts it over the run's span of time, polls it until
/// it has ended, and turns the rows of a query that succeeded into a block.
/// A query for whose rows no column is configured is never read. Whatever
/// the service answers, a block that comes back carries the query's
/// description and the table of the rows of an answer that reported success.
pub fn fetch_data<C: CloudwatchLogsClient, P: Pause>(
    client: &C,
    pause: &P,
    config: &CloudwatchLogInsightConfig,
    range: &DateTimeRange,
) -> (r: Result<PromptData, FetchError>)
    ensures
        config.result_columns@.len() == 0 ==> r is Err,
        r matches Ok(block) ==> texts(block.description@) == description_of(*config)
            && block.data is Some,
        r matches Ok(block) ==> exists|output: GetQueryResultsOutput| #[trigger]
            is_block_of_answer(block, *config, output),
        r matches Ok(block) ==> exists|rows: Seq<Vec<ResultField>>|
            block.data matches Some(table) && #[trigger] extracted(config.result_columns@, rows)
                == Ok::<Seq<char>, FetchError>(table@),
        r matches Err(e) ==> !(e is InstanceNotFound) && !(e is DbInstanceNotFound) && !(e
            is Timestamp),
{
    let request = build_request(config, range);
    let started = client.start_query(
        request.log_group_name.as_str(),
        request.query.as_str(),
        request.start_time,
        request.end_time,
    );
    let query_id = match query_id_of(started) {
        Ok(id) => id,
        Err(e) => {
            return Err(e);
        },
    };
    let polled = poll_query(client, pause, &query_id, POLL_LIMIT);
    match polled.result {
        Ok(output) => {
            let r = finished(config, &output);
            proof {
                lemma_extraction_errors(config.result_columns@, output.results@);
                if r is Ok {
                    assert(is_block_of_answer(r->Ok_0, *config, output));
                }
            }
            r
        },
        Err(e) => Err(e),
    }
}

/// Reading rows fails only for a field that lacks its name or its value, a
/// column that does not match, or a row of the wrong width.
pub proof fn lemma_extraction_errors(columns: Seq<String>, rows: Seq<Vec<ResultField>>)
    ensures
        extracted(columns, rows) matches Err(e) ==> e is MissingField || e is ColumnMismatch || e
            is UnequalLengths,
{
    lemma_scan_rows_errors(columns, rows);
}

/// Reading a row fails only for a field that lacks its name or its value or
/// for a column that does not match.
proof fn lemma_scan_row_errors(columns: Seq<String>, row: Seq<ResultField>, start: int)
    ensures
        scan_row(columns, row, start) matches Err(e) ==> e is MissingField || e is ColumnMismatch,
    decreases row.len(),
{
    if row.len() > 0 {
        lemma_scan_row_errors(columns, row.drop_last(), start);
    }
}

/// Reading rows fails only as reading a row does, or for a row of the wrong
/// width.
proof fn lemma_scan_rows_errors(columns: Seq<String>, rows: Seq<Vec<ResultField>>)
    ensures
        scan_rows(columns, rows) matches Err(e) ==> e is MissingField || e is ColumnMismatch || e
            is UnequalLengths,
    decreases rows.len(),
{
    if rows.len() > 0 {
        lemma_scan_rows_errors(columns, rows.drop_last());
        match scan_rows(columns, rows.drop_last()) {
            Ok((records, cursor)) => {
                lemma_scan_row_errors(columns, rows.last()@, cursor);
            },
            Err(e) => {},
        }
    }
}

} // verus!
