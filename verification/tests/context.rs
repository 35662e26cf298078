use auto_diagnostic::args::{build_start_and_end, date_time_format, has_complete_range, Args};
use auto_diagnostic::config::{
    AppDescConfig, CloudwatchLogInsightConfig, CloudwatchMetricConfig, Config, Ec2Config,
    GeneralConfig, OpenAiConfig, RdsConfig,
};
use auto_diagnostic::context::{build_context, DateTimeRange};
use auto_diagnostic::datasource::ds::DataSource;
use auto_diagnostic::datasource::sorting::sort_sources;
use auto_diagnostic::error::ContextError;
use chrono_tz::Tz;
use std::cmp::Ordering;
use std::time::{SystemTime, UNIX_EPOCH};

fn now_millis() -> i64 {
    SystemTime::now().duration_since(UNIX_EPOCH).unwrap().as_millis() as i64
}

fn utc() -> String {
    Tz::UTC.to_string()
}

fn app(order_no: u8, description: &str) -> DataSource {
    DataSource::AppDescription {
        config: AppDescConfig { order_no, description: description.to_string() },
    }
}

fn label(source: &DataSource) -> String {
    match source {
        DataSource::AppDescription { config } => config.description.clone(),
        DataSource::Ec2 { config } => config.instance_name.clone(),
        DataSource::Rds { config } => config.db_identifier.clone(),
        DataSource::CloudwatchMetric { config } => config.metric_name.clone(),
        DataSource::CloudwatchLogInsight { config } => config.description.clone(),
    }
}

#[test]
fn test_build_start_and_end_using_duration() {
    let args = Args {
        file: String::new(),
        duration: 100,
        start: None,
        end: None,
        print_prompt_data: false,
        dry_run: false,
    };
    let (start, end) =
        build_start_and_end(&args, &utc(), now_millis()).expect("Should not return an error");
    let diff = ((end - start) / 1000) as u64;

    assert_eq!(args.duration, diff)
}

#[test]
fn test_build_start_and_end_using_range() {
    let args = Args {
        file: String::new(),
        duration: 0,
        start: Some(String::from("2024-01-01 12:00:00")),
        end: Some(String::from("2024-01-02 12:00:00")),
        print_prompt_data: false,
        dry_run: false,
    };
    let (start, end) =
        build_start_and_end(&args, &utc(), now_millis()).expect("Should not return an error");
    let diff = (end - start) / 1000;

    assert_eq!(86400, diff)
}

#[test]
fn test_build_start_and_end_using_range_should_have_both_duration() {
    let args = Args {
        file: String::new(),
        duration: 0,
        start: Some(String::from("2024-01-01 12:00:00")),
        end: None,
        print_prompt_data: false,
        dry_run: false,
    };

    assert!(!has_complete_range(&args));
    let result = build_context(args, Config::default(), now_millis());

    assert!(result.is_err());
    assert!(matches!(result, Err(ContextError::IncompleteRange)));

    let only_end = Args {
        start: None,
        end: Some(String::from("2024-01-01 12:00:00")),
        ..Args::default()
    };
    assert!(!has_complete_range(&only_end));
    assert!(matches!(
        build_context(only_end, Config::default(), now_millis()),
        Err(ContextError::IncompleteRange)
    ));
    assert!(has_complete_range(&Args::default()));
    assert_eq!(date_time_format(), "%Y-%m-%d %H:%M:%S");
}

#[test]
fn build_context_without_errors() {
    let context = build_context(
        Args {
            file: String::from("file.toml"),
            duration: 60,
            start: None,
            end: None,
            print_prompt_data: true,
            dry_run: false,
        },
        Config {
            general: GeneralConfig {
                profile: "aws-profile".to_string(),
                time_zone: Some("Asia/Manila".to_string()),
            },
            open_ai: OpenAiConfig {
                api_key: Some("openai-api-key".to_string()),
                model: "gpt-4o".to_string(),
                max_token: 4096,
            },
            app_description: Some(vec![AppDescConfig {
                order_no: 5,
                description: "App description".to_string(),
            }]),
            ec2: Some(vec![Ec2Config { order_no: 4, instance_name: "ec2-instance".to_string() }]),
            rds: Some(vec![RdsConfig { order_no: 3, db_identifier: "rds-instance".to_string() }]),
            cloudwatch_metric: Some(vec![CloudwatchMetricConfig {
                order_no: 2,
                dimension_name: "dimension-name".to_string(),
                dimension_value: "dimension-value".to_string(),
                metric_identifier: "metric-identifier".to_string(),
                metric_namespace: "metric-namespace".to_string(),
                metric_name: "metric-name".to_string(),
                metric_stat: "metric-stat".to_string(),
                metric_unit: None,
            }]),
            cloudwatch_log_insight: Some(vec![CloudwatchLogInsightConfig {
                order_no: 1,
                description: "description".to_string(),
                log_group_name: "log-group-name".to_string(),
                query: "query".to_string(),
                result_columns: vec!["col1".to_string(), "col2".to_string()],
            }]),
        },
        now_millis(),
    )
    .unwrap();

    assert_eq!(context.profile, "aws-profile");
    assert_eq!(context.range.time_zone.parse::<Tz>().unwrap(), Tz::Asia__Manila);
    assert_eq!(context.open_ai_api_key, Some("openai-api-key".to_string()));
    assert_eq!(context.open_ai_model, "gpt-4o".to_string());
    assert_eq!(context.open_ai_max_token, 4096);
    assert_eq!(context.data_sources.len(), 5);
    assert!(matches!(context.data_sources[0], DataSource::CloudwatchLogInsight { .. }));
    assert!(matches!(context.data_sources[1], DataSource::CloudwatchMetric { .. }));
    assert!(matches!(context.data_sources[2], DataSource::Rds { .. }));
    assert!(matches!(context.data_sources[3], DataSource::Ec2 { .. }));
    assert!(matches!(context.data_sources[4], DataSource::AppDescription { .. }));
    assert!(context.print_prompt_data);
    assert!(!context.dry_run);
    assert_eq!(context.range.end_time - context.range.start_time, 60_000);
    let keys: Vec<u8> = context.data_sources.iter().map(|s| s.order_no()).collect();
    assert_eq!(keys, vec![1, 2, 3, 4, 5]);
}

#[test]
fn the_span_is_the_duration_up_to_now() {
    let args = Args { duration: 3600, ..Args::default() };

    assert_eq!(build_start_and_end(&args, &utc(), 5_000_000).unwrap(), (1_400_000, 5_000_000));
    assert_eq!(build_start_and_end(&args, &utc(), 3_600_000).unwrap(), (0, 3_600_000));
    assert!(matches!(
        build_start_and_end(&args, &utc(), 3_599_999),
        Err(ContextError::DurationTooLong)
    ));
    assert!(matches!(build_start_and_end(&args, &utc(), -1), Err(ContextError::DurationTooLong)));
    let endless = Args { duration: u64::MAX, ..Args::default() };
    assert!(matches!(
        build_start_and_end(&endless, &utc(), i64::MAX),
        Err(ContextError::DurationTooLong)
    ));
    let none = Args { duration: 0, ..Args::default() };
    assert_eq!(build_start_and_end(&none, &utc(), 17).unwrap(), (17, 17));
}

#[test]
fn a_given_span_is_read_in_the_zone() {
    let args = Args {
        duration: 7,
        start: Some(String::from("2024-01-01 12:00:00")),
        end: Some(String::from("2024-01-02 12:00:00")),
        ..Args::default()
    };

    assert_eq!(
        build_start_and_end(&args, &utc(), 0).unwrap(),
        (1_704_110_400_000, 1_704_196_800_000)
    );
    assert_eq!(
        build_start_and_end(&args, &"Asia/Manila".to_string(), 0).unwrap(),
        (1_704_110_400_000 - 8 * 3_600_000, 1_704_196_800_000 - 8 * 3_600_000)
    );
}

#[test]
fn a_span_that_cannot_be_read_is_refused() {
    let backwards = Args {
        start: Some(String::from("2024-01-02 12:00:00")),
        end: Some(String::from("2024-01-01 12:00:00")),
        ..Args::default()
    };
    assert!(matches!(
        build_start_and_end(&backwards, &utc(), 0),
        Err(ContextError::StartAfterEnd)
    ));

    let garbled = Args {
        start: Some(String::from("yesterday")),
        end: Some(String::from("2024-01-01 12:00:00")),
        ..Args::default()
    };
    match build_start_and_end(&garbled, &utc(), 0) {
        Err(ContextError::InvalidDateTime { text }) => assert_eq!(text, "yesterday"),
        other => panic!("unexpected: {:?}", other),
    }

    let garbled_end = Args {
        start: Some(String::from("2024-01-01 12:00:00")),
        end: Some(String::from("2024-01-01T13:00:00")),
        ..Args::default()
    };
    match build_start_and_end(&garbled_end, &utc(), 0) {
        Err(ContextError::InvalidDateTime { text }) => assert_eq!(text, "2024-01-01T13:00:00"),
        other => panic!("unexpected: {:?}", other),
    }

    // In New York the clocks skipped from 02:00 to 03:00 on 2024-03-10.
    let skipped = Args {
        start: Some(String::from("2024-03-10 02:30:00")),
        end: Some(String::from("2024-03-10 04:00:00")),
        ..Args::default()
    };
    match build_start_and_end(&skipped, &"America/New_York".to_string(), 0) {
        Err(ContextError::InvalidDateTime { text }) => assert_eq!(text, "2024-03-10 02:30:00"),
        other => panic!("unexpected: {:?}", other),
    }

    match build_start_and_end(&Args::default(), &"Mars/Base".to_string(), 0) {
        Err(ContextError::UnknownTimeZone { name }) => assert_eq!(name, "Mars/Base"),
        other => panic!("unexpected: {:?}", other),
    }
}

#[test]
fn the_zone_defaults_to_universal_time() {
    let context = build_context(Args::default(), Config::default(), 1_000).unwrap();

    assert_eq!(context.range.time_zone, "UTC");
    assert_eq!(context.range.start_time, 1_000);
    assert_eq!(context.range.end_time, 1_000);
    assert!(context.data_sources.is_empty());
    assert_eq!(context.open_ai_api_key, None);

    let range = DateTimeRange::default();
    assert_eq!(range.time_zone, "UTC");
    assert_eq!((range.start_time, range.end_time), (0, 0));
}

#[test]
fn an_unknown_zone_ends_the_set_up() {
    let config = Config {
        general: GeneralConfig { profile: String::new(), time_zone: Some("Nowhere".to_string()) },
        ..Config::default()
    };

    match build_context(Args::default(), config, 1_000) {
        Err(ContextError::UnknownTimeZone { name }) => assert_eq!(name, "Nowhere"),
        other => panic!("unexpected: {:?}", other),
    }
}

#[test]
fn sources_of_one_key_keep_their_order() {
    let sources = vec![
        app(2, "a"),
        app(1, "b"),
        app(2, "c"),
        app(0, "d"),
        app(1, "e"),
        app(2, "f"),
        app(255, "g"),
        app(0, "h"),
    ];

    let sorted = sort_sources(sources);

    let labels: Vec<String> = sorted.iter().map(label).collect();
    assert_eq!(labels, vec!["d", "h", "b", "e", "a", "c", "f", "g"]);
    assert!(sort_sources(Vec::new()).is_empty());
}

#[test]
fn kinds_are_configured_one_after_the_other() {
    let config = Config {
        app_description: Some(vec![
            AppDescConfig { order_no: 1, description: "a1".to_string() },
            AppDescConfig { order_no: 1, description: "a2".to_string() },
        ]),
        ec2: Some(vec![
            Ec2Config { order_no: 1, instance_name: "e1".to_string() },
            Ec2Config { order_no: 0, instance_name: "e2".to_string() },
        ]),
        rds: Some(vec![RdsConfig { order_no: 1, db_identifier: "r1".to_string() }]),
        cloudwatch_metric: Some(vec![CloudwatchMetricConfig {
            order_no: 1,
            metric_name: "m1".to_string(),
            ..CloudwatchMetricConfig::default()
        }]),
        cloudwatch_log_insight: Some(vec![
            CloudwatchLogInsightConfig {
                order_no: 1,
                description: "l1".to_string(),
                ..CloudwatchLogInsightConfig::default()
            },
            CloudwatchLogInsightConfig {
                order_no: 0,
                description: "l2".to_string(),
                ..CloudwatchLogInsightConfig::default()
            },
        ]),
        ..Config::default()
    };

    let context = build_context(Args::default(), config, 0).unwrap();

    let labels: Vec<String> = context.data_sources.iter().map(label).collect();
    assert_eq!(labels, vec!["e2", "l2", "a1", "a2", "e1", "r1", "m1", "l1"]);
}

#[test]
fn sources_compare_by_their_keys() {
    assert!(app(1, "a") == app(1, "b"));
    assert!(app(1, "a") != app(2, "a"));
    assert_eq!(app(1, "a").partial_cmp(&app(2, "a")), Some(Ordering::Less));
    assert_eq!(app(2, "a").partial_cmp(&app(2, "b")), Some(Ordering::Equal));
    assert_eq!(app(3, "a").partial_cmp(&app(2, "a")), Some(Ordering::Greater));
    assert!(app(1, "z") < app(2, "a"));
}

#[test]
fn every_kind_has_a_display_name() {
    let names: Vec<String> = vec![
        app(1, "a"),
        DataSource::Ec2 { config: Ec2Config::default() },
        DataSource::Rds { config: RdsConfig::default() },
        DataSource::CloudwatchMetric { config: CloudwatchMetricConfig::default() },
        DataSource::CloudwatchLogInsight { config: CloudwatchLogInsightConfig::default() },
    ]
    .iter()
    .map(|s| s.display_name())
    .collect();

    assert_eq!(
        names,
        vec![
            "App description",
            "EC2 instance",
            "RDS instance",
            "Cloudwatch metric",
            "Cloudwatch log insight"
        ]
    );
}
