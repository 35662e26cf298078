use auto_diagnostic::config::{
    AppDescConfig, CloudwatchLogInsightConfig, CloudwatchMetricConfig, Ec2Config, RdsConfig,
};
use auto_diagnostic::context::{AppContext, DateTimeRange};
use auto_diagnostic::datasource::app_description;
use auto_diagnostic::datasource::cloudwatch_log_insight::{
    CloudwatchLogsClient, GetQueryResultsOutput, Pause, QueryStatus, ResultField, StartQueryOutput,
};
use auto_diagnostic::datasource::cloudwatch_metric::{
    CloudwatchClient, GetMetricDataOutput, MetricDataQuery, MetricDataResult,
};
use auto_diagnostic::datasource::ds::{Clients, DataSource};
use auto_diagnostic::datasource::ec2::{
    CpuOptions, DescribeInstancesOutput, Ec2Client, Filter, Instance, InstanceState, Reservation,
};
use auto_diagnostic::datasource::rds::{DbInstance, DescribeDbInstancesOutput, RdsClient};
use auto_diagnostic::error::{ClientError, FetchError};
use auto_diagnostic::prompt::{
    append_block, append_blocks, build_instruction, build_prompt_data, Progress, PromptData,
};
use std::cell::RefCell;

struct Services {
    calls: RefCell<Vec<String>>,
}

struct Ec2<'a>(&'a Services);
struct Rds<'a>(&'a Services);
struct Metrics<'a>(&'a Services);
struct Logs<'a>(&'a Services);
struct NoPause;

impl Ec2Client for Ec2<'_> {
    fn describe_instances(&self, filter: Filter) -> Result<DescribeInstancesOutput, ClientError> {
        self.0.calls.borrow_mut().push(format!("ec2 {}", filter.values[0]));
        if filter.values[0] == "missing" {
            return Ok(DescribeInstancesOutput { reservations: Vec::new() });
        }
        let instance = |id: &str| Instance {
            instance_id: Some(id.to_string()),
            instance_type: Some("t3a.medium".to_string()),
            cpu_options: Some(CpuOptions { core_count: Some(1), threads_per_core: Some(2) }),
            state: Some(InstanceState { name: Some("running".to_string()) }),
        };
        Ok(DescribeInstancesOutput {
            reservations: vec![Reservation { instances: vec![instance("i-1"), instance("i-2")] }],
        })
    }
}

impl RdsClient for Rds<'_> {
    fn describe_db_instances(&self) -> Result<DescribeDbInstancesOutput, ClientError> {
        self.0.calls.borrow_mut().push("rds".to_string());
        Ok(DescribeDbInstancesOutput {
            db_instances: Some(vec![DbInstance {
                db_instance_identifier: Some("orders".to_string()),
                db_instance_class: Some("db.t4g.medium".to_string()),
                engine: Some("postgresql".to_string()),
                engine_version: Some("16.1".to_string()),
                storage_type: Some("gp3".to_string()),
                db_instance_status: Some("available".to_string()),
                multi_az: Some(false),
            }]),
        })
    }
}

impl CloudwatchClient for Metrics<'_> {
    fn get_metric_data(
        &self,
        _: i64,
        _: i64,
        query: MetricDataQuery,
    ) -> Result<GetMetricDataOutput, ClientError> {
        self.0.calls.borrow_mut().push(format!("metric {}", query.dimension.value));
        Ok(GetMetricDataOutput {
            metric_data_results: vec![MetricDataResult {
                timestamps: vec![0, 60_000],
                values: vec!["1".to_string(), "2".to_string()],
            }],
        })
    }
}

impl CloudwatchLogsClient for Logs<'_> {
    fn start_query(&self, group: &str, _: &str, _: i64, _: i64) -> Result<StartQueryOutput, ClientError> {
        self.0.calls.borrow_mut().push(format!("logs {}", group));
        Ok(StartQueryOutput { query_id: Some("q".to_string()) })
    }

    fn get_query_results(&self, _: String) -> Result<GetQueryResultsOutput, ClientError> {
        Ok(GetQueryResultsOutput {
            status: Some(QueryStatus::Complete),
            results: vec![vec![ResultField {
                field: Some("message".to_string()),
                value: Some("boom".to_string()),
            }]],
        })
    }
}

impl Pause for NoPause {
    fn pause(&self, _: u64) {}
}

struct Shown {
    events: RefCell<Vec<String>>,
}

impl Shown {
    fn new() -> Self {
        Shown { events: RefCell::new(Vec::new()) }
    }
}

impl Progress for Shown {
    fn reading(&self, name: &str) {
        self.events.borrow_mut().push(format!("reading {}", name));
    }

    fn advance(&self) {
        self.events.borrow_mut().push("advance".to_string());
    }

    fn finish(&self) {
        self.events.borrow_mut().push("finish".to_string());
    }
}

fn clients(services: &Services) -> Clients<Ec2<'_>, Rds<'_>, Metrics<'_>, Logs<'_>, NoPause> {
    Clients {
        ec2: Ec2(services),
        rds: Rds(services),
        cloudwatch: Metrics(services),
        logs: Logs(services),
        pause: NoPause,
    }
}

fn app(order_no: u8, description: &str) -> DataSource {
    DataSource::AppDescription {
        config: AppDescConfig { order_no, description: description.to_string() },
    }
}

fn five_kinds() -> Vec<DataSource> {
    vec![
        app(1, "A shop"),
        DataSource::Ec2 { config: Ec2Config { order_no: 2, instance_name: "web".to_string() } },
        DataSource::Rds { config: RdsConfig { order_no: 3, db_identifier: "orders".to_string() } },
        DataSource::CloudwatchMetric {
            config: CloudwatchMetricConfig {
                order_no: 4,
                dimension_name: "QueueName".to_string(),
                dimension_value: "jobs".to_string(),
                metric_namespace: "AWS/SQS".to_string(),
                metric_name: "Depth".to_string(),
                ..CloudwatchMetricConfig::default()
            },
        },
        DataSource::CloudwatchLogInsight {
            config: CloudwatchLogInsightConfig {
                order_no: 5,
                description: "Errors".to_string(),
                log_group_name: "app".to_string(),
                query: "fields message".to_string(),
                result_columns: vec!["message".to_string()],
            },
        },
    ]
}

#[test]
fn should_build_prompt_data_correctly() {
    let context = AppContext {
        data_sources: vec![DataSource::AppDescription {
            config: AppDescConfig {
                order_no: 1,
                description: "This is an app description".to_string(),
            },
        }],
        ..AppContext::default()
    };
    let services = Services { calls: RefCell::new(Vec::new()) };

    let prompt_data = build_prompt_data(&context, &clients(&services), &Shown::new())
        .expect("Should build prompt data");
    let expected_prompt_data =
        "Information: [App Description]\nThis is an app description\n\n".to_string();

    assert_eq!(prompt_data, expected_prompt_data);
    assert!(services.calls.borrow().is_empty());
}

#[test]
fn the_description_of_the_application_has_no_table() {
    let block = app_description::fetch_data(&AppDescConfig {
        order_no: 9,
        description: "Orders and payments".to_string(),
    });

    assert_eq!(block.description, vec!["Information: [App Description]", "Orders and payments"]);
    assert!(block.data.is_none());
}

#[test]
fn the_instruction_is_six_lines() {
    let expected = [
        "You are an AWS diagnostic assistant.",
        "Include timestamps from important data, if necessary.",
        "Add visual elements such as graphs and tables drawn with ascii characters, if necessary",
        "Format your response in Markdown.",
        "Keep your report concise by including only critical areas.",
        "Perform a diagnosis using the provided information below:",
    ]
    .join("\n");

    assert_eq!(build_instruction(), expected);
}

#[test]
fn a_block_with_a_table_fences_it() {
    let block = PromptData {
        description: vec!["first".to_string(), "second".to_string()],
        data: Some("a,b\n1,2\n".to_string()),
    };
    let mut prompt = "before\n".to_string();

    append_block(&mut prompt, &block);

    assert_eq!(prompt, "before\nfirst\nsecond\nData:\n```\na,b\n1,2\n```\n\n");
}

#[test]
fn blocks_follow_one_another() {
    let blocks = vec![
        PromptData { description: vec!["one".to_string()], data: None },
        PromptData { description: Vec::new(), data: Some("x\n".to_string()) },
        PromptData { description: vec!["three".to_string()], data: None },
    ];
    let mut prompt = String::new();

    append_blocks(&mut prompt, &blocks);

    assert_eq!(prompt, "one\n\n\nData:\n```\nx\n```\n\nthree\n\n");
    let mut untouched = "kept".to_string();
    append_blocks(&mut untouched, &Vec::new());
    assert_eq!(untouched, "kept");
}

#[test]
fn sources_are_read_in_the_order_of_the_context() {
    let context = AppContext {
        data_sources: five_kinds(),
        range: DateTimeRange::default(),
        ..AppContext::default()
    };
    let services = Services { calls: RefCell::new(Vec::new()) };

    let shown = Shown::new();
    let prompt = build_prompt_data(&context, &clients(&services), &shown).expect("prompt");

    assert_eq!(*services.calls.borrow(), vec!["ec2 web", "rds", "metric jobs", "logs app"]);
    assert_eq!(
        *shown.events.borrow(),
        vec![
            "reading App description",
            "advance",
            "reading EC2 instance",
            "advance",
            "reading RDS instance",
            "advance",
            "reading Cloudwatch metric",
            "advance",
            "reading Cloudwatch log insight",
            "advance",
            "finish"
        ]
    );
    let expected = [
        "Information: [App Description]\nA shop\n\n",
        "Information: [EC2 Instance]\nInstance name: [`web`]\nInstance id: [`i-1`]\n",
        "Instance type: [`t3a.medium`]\nCpu core count: [1]\nCpu threads per core: [2]\n",
        "State: [running]\n\n",
        "Information: [EC2 Instance]\nInstance name: [`web`]\nInstance id: [`i-2`]\n",
        "Instance type: [`t3a.medium`]\nCpu core count: [1]\nCpu threads per core: [2]\n",
        "State: [running]\n\n",
        "Information: [RDS Instance]\nDB identifier: [`orders`]\nClass: [`db.t4g.medium`]\n",
        "Engine: [postgresql 16.1]\nStorage type: [gp3]\nStatus: [available]\n",
        "Multi AZ: [false]\n\n",
        "Information: [Cloudwatch AWS/SQS]\nMetric: [`Depth`]\nDimension: [`QueueName:jobs`]\n",
        "Data:\n```\ntimestamp,value\n1970-01-01 00:01:00 UTC,2\n1970-01-01 00:00:00 UTC,1\n```\n\n",
        "Information: [Cloudwatch Log Insights]\nDescription: [Errors]\nLog Group: [`app`]\n",
        "Data:\n```\nmessage\nboom\n```\n\n",
    ]
    .join("");
    assert_eq!(prompt, expected);
}

#[test]
fn only_metrics_and_log_queries_carry_tables() {
    let context = AppContext::default();
    let services = Services { calls: RefCell::new(Vec::new()) };
    let clients = clients(&services);

    for source in five_kinds() {
        let blocks = source.fetch_data(&clients, &context).expect("blocks");
        assert!(!blocks.is_empty());
        let tables = matches!(
            source,
            DataSource::CloudwatchMetric { .. } | DataSource::CloudwatchLogInsight { .. }
        );
        for block in blocks {
            assert!(!block.description.is_empty());
            assert_eq!(block.data.is_some(), tables);
        }
    }
}

#[test]
fn the_description_of_the_application_is_always_read() {
    let services = Services { calls: RefCell::new(Vec::new()) };

    let blocks = app(3, "A shop")
        .fetch_data(&clients(&services), &AppContext::default())
        .expect("read without a service");

    assert_eq!(blocks.len(), 1);
    assert_eq!(blocks[0].description, vec!["Information: [App Description]", "A shop"]);
    assert!(blocks[0].data.is_none());
    assert!(services.calls.borrow().is_empty());
}

#[test]
fn a_source_fails_in_the_ways_of_its_kind() {
    let services = Services { calls: RefCell::new(Vec::new()) };
    let source = DataSource::Ec2 {
        config: Ec2Config { order_no: 1, instance_name: "missing".to_string() },
    };

    match source.fetch_data(&clients(&services), &AppContext::default()) {
        Err(FetchError::InstanceNotFound { name }) => assert_eq!(name, "missing"),
        other => panic!("unexpected: {:?}", other),
    }
}

#[test]
fn the_first_failure_ends_the_reading() {
    let context = AppContext {
        data_sources: vec![
            app(1, "A shop"),
            DataSource::Ec2 {
                config: Ec2Config { order_no: 2, instance_name: "missing".to_string() },
            },
            DataSource::Rds {
                config: RdsConfig { order_no: 3, db_identifier: "orders".to_string() },
            },
        ],
        ..AppContext::default()
    };
    let services = Services { calls: RefCell::new(Vec::new()) };

    let shown = Shown::new();
    match build_prompt_data(&context, &clients(&services), &shown) {
        Err(FetchError::InstanceNotFound { name }) => assert_eq!(name, "missing"),
        other => panic!("unexpected: {:?}", other),
    }
    assert_eq!(*services.calls.borrow(), vec!["ec2 missing"]);
    assert_eq!(
        *shown.events.borrow(),
        vec!["reading App description", "advance", "reading EC2 instance"]
    );
}

#[test]
fn a_run_without_sources_has_an_empty_prompt() {
    let services = Services { calls: RefCell::new(Vec::new()) };

    let shown = Shown::new();
    let prompt =
        build_prompt_data(&AppContext::default(), &clients(&services), &shown).expect("prompt");

    assert_eq!(prompt, "");
    assert_eq!(*shown.events.borrow(), vec!["finish"]);
}
