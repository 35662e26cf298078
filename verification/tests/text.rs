use auto_diagnostic::error::{ContextError, FetchError, Field};
use auto_diagnostic::text::{bool_to_string, i32_to_string, join, prefixed, same_text, wrap};

#[test]
fn integers_print_in_decimal() {
    assert_eq!(i32_to_string(0), "0");
    assert_eq!(i32_to_string(7), "7");
    assert_eq!(i32_to_string(10), "10");
    assert_eq!(i32_to_string(1234567890), "1234567890");
    assert_eq!(i32_to_string(-1), "-1");
    assert_eq!(i32_to_string(-405), "-405");
    assert_eq!(i32_to_string(i32::MAX), "2147483647");
    assert_eq!(i32_to_string(i32::MIN), "-2147483648");
    for n in [-100000, -99, -10, -9, 9, 99, 100, 101, 65536] {
        assert_eq!(i32_to_string(n), n.to_string());
    }
}

#[test]
fn booleans_print_as_words() {
    assert_eq!(bool_to_string(true), "true");
    assert_eq!(bool_to_string(false), "false");
}

#[test]
fn join_puts_the_separator_between_neighbours() {
    let none: Vec<String> = Vec::new();
    assert_eq!(join(&none, "\n"), "");
    assert_eq!(join(&vec!["a".to_string()], "\n"), "a");
    assert_eq!(join(&vec!["a".to_string(), "b".to_string(), "".to_string()], ", "), "a, b, ");
}

#[test]
fn wrap_and_prefixed_concatenate() {
    assert_eq!(wrap("[", "x", "]"), "[x]");
    assert_eq!(prefixed("Unit: ", "Percent"), "Unit: Percent");
    assert!(same_text(&"AWS/EC2".to_string(), "AWS/EC2"));
    assert!(!same_text(&"AWS/EC2".to_string(), "AWS/RDS"));
}

#[test]
fn every_field_has_a_name() {
    let fields = [
        (Field::InstanceId, "instance id"),
        (Field::InstanceType, "instance type"),
        (Field::CpuOptions, "cpu options"),
        (Field::CoreCount, "cpu core count"),
        (Field::ThreadsPerCore, "cpu threads per core"),
        (Field::State, "state"),
        (Field::StateName, "state name"),
        (Field::DbInstanceClass, "db instance class"),
        (Field::Engine, "engine"),
        (Field::EngineVersion, "engine version"),
        (Field::StorageType, "storage type"),
        (Field::DbInstanceStatus, "db instance status"),
        (Field::MultiAz, "multi az"),
        (Field::QueryId, "query id"),
        (Field::QueryStatus, "query status"),
        (Field::ResultFieldName, "result field name"),
        (Field::ResultFieldValue, "result field value"),
    ];
    for (field, name) in fields {
        assert_eq!(field.name(), name);
        assert_eq!(
            FetchError::MissingField(field).message(),
            format!("Missing from response: {}", name)
        );
    }
}

#[test]
fn errors_have_messages() {
    assert_eq!(
        FetchError::InstanceNotFound { name: "web".to_string() }.message(),
        "Unable to find instance with name: web"
    );
    assert_eq!(
        FetchError::DbInstanceNotFound { name: "db".to_string() }.message(),
        "Unable to find DB instance with name: db"
    );
    assert_eq!(
        FetchError::UnexpectedStatus { status: "Failed".to_string() }.message(),
        "Unexpected status: Failed"
    );
    assert_eq!(
        FetchError::ColumnMismatch { expected: "a".to_string(), actual: "b".to_string() }.message(),
        "Expected column not matched! Expected: a, Actual: b"
    );
    assert_eq!(FetchError::PollLimit.message(), "Query still unfinished after the last poll");
    assert_eq!(
        FetchError::UnequalLengths { expected_len: 2, len: 3 }.message(),
        "Unequal lengths in table"
    );
    assert_eq!(FetchError::Timestamp { millis: 5 }.message(), "Timestamp cannot be shown");
    assert_eq!(
        ContextError::UnknownTimeZone { name: "Mars/Base".to_string() }.message(),
        "Unknown time zone: Mars/Base"
    );
    assert_eq!(
        ContextError::IncompleteRange.message(),
        "Both start and end arguments must be provided"
    );
    assert_eq!(
        ContextError::InvalidDateTime { text: "noon".to_string() }.message(),
        "Invalid date and time: noon"
    );
    assert_eq!(ContextError::DurationTooLong.message(), "Duration reaches back before the epoch");
    assert_eq!(ContextError::StartAfterEnd.message(), "Start must not be after end");
}
