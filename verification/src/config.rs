//! The configuration document as typed records: general settings, the settings
//! of the language model, and one record per configured data source.

use vstd::prelude::*;

verus! {

/// The whole configuration: two fixed sections and, for each kind of data
/// source, the records configured for it (absent where none are).
#[derive(Debug, Default)]
pub struct Config {
    pub general: GeneralConfig,
    pub open_ai: OpenAiConfig,
    pub app_description: Option<Vec<AppDescConfig>>,
    pub ec2: Option<Vec<Ec2Config>>,
    pub rds: Option<Vec<RdsConfig>>,
    pub cloudwatch_metric: Option<Vec<CloudwatchMetricConfig>>,
    pub cloudwatch_log_insight: Option<Vec<CloudwatchLogInsightConfig>>,
}

/// Credentials profile and the time zone in which timestamps are shown.
#[derive(Debug, Default)]
pub struct GeneralConfig {
    pub profile: String,
    pub time_zone: Option<String>,
}

/// Settings of the language model that receives the prompt.
#[derive(Debug, Default)]
pub struct OpenAiConfig {
    pub api_key: Option<String>,
    pub model: String,
    pub max_token: u32,
}

/// A free text that describes the application.
#[derive(Debug, Default)]
pub struct AppDescConfig {
    pub order_no: u8,
    pub description: String,
}

/// Compute instances, found by the value of their `Name` tag.
#[derive(Debug, Default)]
pub struct Ec2Config {
    pub order_no: u8,
    pub instance_name: String,
}

/// One managed database, found by its identifier.
#[derive(Debug, Default)]
pub struct RdsConfig {
    pub order_no: u8,
    pub db_identifier: String,
}

/// One metric and the dimension it is read for.
#[derive(Debug, Default)]
pub struct CloudwatchMetricConfig {
    pub order_no: u8,
    pub dimension_name: String,
    pub dimension_value: String,
    pub metric_identifier: String,
    pub metric_namespace: String,
    pub metric_name: String,
    pub metric_stat: String,
    pub metric_unit: Option<String>,
}

/// One log query and the columns its rows are expected to carry, in order.
#[derive(Debug, Default)]
pub struct CloudwatchLogInsightConfig {
    pub order_no: u8,
    pub description: String,
    pub log_group_name: String,
    pub query: String,
    pub result_columns: Vec<String>,
}

} // verus!
