//! The data source: one of five kinds, each with its configuration, and the
//! one way to read any of them.

use crate::config::{
    AppDescConfig, CloudwatchLogInsightConfig, CloudwatchMetricConfig, Ec2Config, RdsConfig,
};
use crate::context::AppContext;
use crate::datasource::cloudwatch_log_insight::{CloudwatchLogsClient, Pause};
use crate::datasource::cloudwatch_metric::CloudwatchClient;
use crate::datasource::ec2::Ec2Client;
use crate::datasource::rds::RdsClient;
use crate::datasource::{app_description, cloudwatch_log_insight, cloudwatch_metric, ec2, rds};
use crate::error::{FetchError, Field};
use crate::prompt::{carries, PromptData};
use crate::text::texts;
use std::cmp::Ordering;
use vstd::prelude::*;
use vstd::std_specs::cmp::{PartialEqSpecImpl, PartialOrdSpecImpl};
use vstd::string::StringExecFns;

verus! {

/// One configured entity to inspect.
#[derive(Debug)]
#[allow(inconsistent_fields)]
pub enum DataSource {
    AppDescription { config: AppDescConfig },
    Ec2 { config: Ec2Config },
    Rds { config: RdsConfig },
    CloudwatchMetric { config: CloudwatchMetricConfig },
    CloudwatchLogInsight { config: CloudwatchLogInsightConfig },
}

/// The service clients that reading data sources may call on.
pub struct Clients<E, R, M, L, P> {
    pub ec2: E,
    pub rds: R,
    pub cloudwatch: M,
    pub logs: L,
    pub pause: P,
}

/// The name of a kind of data source, as shown while it is read.
pub open spec fn display_text(source: DataSource) -> Seq<char> {
    match source {
        DataSource::AppDescription { .. } => "App description"@,
        DataSource::Ec2 { .. } => "EC2 instance"@,
        DataSource::Rds { .. } => "RDS instance"@,
        DataSource::CloudwatchMetric { .. } => "Cloudwatch metric"@,
        DataSource::CloudwatchLogInsight { .. } => "Cloudwatch log insight"@,
    }
}

/// Whether `blocks` can be what reading `source` gives: at least one block,
/// every block with a description, and a table in every block of a source
/// that carries tables and in no block of any other.
pub open spec fn fits(source: DataSource, blocks: Seq<PromptData>) -> bool {
    &&& blocks.len() > 0
    &&& forall|i: int|
        0 <= i < blocks.len() ==> (#[trigger] blocks[i]).description@.len() > 0 && (blocks[i].data
            is Some <==> source.carries_table())
}

/// Whether `blocks` are what reading `source` gives when it succeeds. The
/// description of the application is its one block. Compute instances give
/// the descriptions of some instances, one block each. A database gives the
/// description of a database with the configured identifier. A metric gives,
/// for each block, its description for a dimension of the configured name
/// and the table that some answer's points make in the zone. A log query
/// gives its description and the table of some rows under the configured
/// columns.
pub open spec fn is_reading_of(source: DataSource, zone: Seq<char>, blocks: Seq<PromptData>)
    -> bool {
    match source {
        DataSource::AppDescription { config } => blocks.len() == 1 && carries(
            blocks[0],
            app_description::description_of(config),
            None,
        ),
        DataSource::Ec2 { config } => blocks.len() > 0 && exists|instances: Seq<ec2::Instance>| #[trigger]
            ec2::describes(blocks, config, instances),
        DataSource::Rds { config } => blocks.len() == 1 && exists|instance: rds::DbInstance|
            rds::identifier_of(instance) == config.db_identifier@ && #[trigger] carries(
                blocks[0],
                rds::description_of(config, instance),
                None,
            ),
        DataSource::CloudwatchMetric { config } => blocks.len() > 0 && forall|i: int|
            0 <= i < blocks.len() ==> cloudwatch_metric::is_metric_block(
                #[trigger] blocks[i],
                config,
                zone,
            ),
        DataSource::CloudwatchLogInsight { config } => blocks.len() == 1 && texts(
            blocks[0].description@,
        ) == cloudwatch_log_insight::description_of(config) && exists|
            rows: Seq<Vec<cloudwatch_log_insight::ResultField>>,
        |
            blocks[0].data matches Some(table) && #[trigger] cloudwatch_log_insight::extracted(
                config.result_columns@,
                rows,
            ) == Ok::<Seq<char>, FetchError>(table@),
    }
}

/// Whether reading `source` can end in `error`. The description of the
/// application is always read. The other kinds can fail when their service
/// does, for a field that an answer lacks, and each in the ways of its own:
/// instances and databases that are not found, timestamps that cannot be
/// shown, queries that end badly and rows that do not match.
pub open spec fn may_fail_with(source: DataSource, error: FetchError) -> bool {
    match source {
        DataSource::AppDescription { .. } => false,
        DataSource::Ec2 { config } => error is Client || error is MissingField || error == (
        FetchError::InstanceNotFound { name: config.instance_name }),
        DataSource::Rds { config } => error is Client || error is MissingField || error == (
        FetchError::DbInstanceNotFound { name: config.db_identifier }),
        DataSource::CloudwatchMetric { .. } => error is Client || error is Timestamp || error
            is InstanceNotFound || error == FetchError::MissingField(Field::InstanceId),
        DataSource::CloudwatchLogInsight { .. } => !(error is InstanceNotFound) && !(error
            is DbInstanceNotFound) && !(error is Timestamp),
    }
}

impl DataSource {
    /// The key by which data sources are put in order.
    pub open spec fn key(&self) -> u8 {
        match self {
            DataSource::AppDescription { config } => config.order_no,
            DataSource::Ec2 { config } => config.order_no,
            DataSource::Rds { config } => config.order_no,
            DataSource::CloudwatchMetric { config } => config.order_no,
            DataSource::CloudwatchLogInsight { config } => config.order_no,
        }
    }

    /// Whether the blocks of this kind of source carry a table.
    pub open spec fn carries_table(&self) -> bool {
        self is CloudwatchMetric || self is CloudwatchLogInsight
    }

    /// The key by which data sources are put in order.
    pub fn order_no(&self) -> (r: u8)
        ensures
            r == self.key(),
    {
        match self {
            DataSource::AppDescription { config } => config.order_no,
            DataSource::Ec2 { config } => config.order_no,
            DataSource::Rds { config } => config.order_no,
            DataSource::CloudwatchMetric { config } => config.order_no,
            DataSource::CloudwatchLogInsight { config } => config.order_no,
        }
    }

    /// The name of the source's kind, as shown while it is read.
    pub fn display_name(&self) -> (r: String)
        ensures
            r@ == display_text(*self),
    {
        match self {
            DataSource::AppDescription { .. } => String::from_str("App description"),
            DataSource::Ec2 { .. } => String::from_str("EC2 instance"),
            DataSource::Rds { .. } => String::from_str("RDS instance"),
            DataSource::CloudwatchMetric { .. } => String::from_str("Cloudwatch metric"),
            DataSource::CloudwatchLogInsight { .. } => String::from_str("Cloudwatch log insight"),
        }
    }

    /// Reads the source through the client of its kind. The description of
    /// the application needs no service and is always read. For the other
    /// kinds the services decide; whatever they answer, blocks that come back
    /// are a reading of the source and fit it (there is a block, every block
    /// has a description, and only metrics and log queries carry tables), and
    /// an error is one that the kind can fail with.
    pub fn fetch_data<
        E: Ec2Client,
        R: RdsClient,
        M: CloudwatchClient,
        L: CloudwatchLogsClient,
        P: Pause,
    >(&self, clients: &Clients<E, R, M, L, P>, context: &AppContext) -> (r: Result<
        Vec<PromptData>,
        FetchError,
    >)
        ensures
            self is AppDescription ==> r is Ok,
            r matches Ok(blocks) ==> is_reading_of(*self, context.range.time_zone@, blocks@),
            r matches Ok(blocks) ==> fits(*self, blocks@),
            r matches Err(e) ==> may_fail_with(*self, e),
    {
        match self {
            DataSource::AppDescription { config } => {
                let block = app_description::fetch_data(config);
                assert(texts(block.description@).len() == 2);
                let mut blocks: Vec<PromptData> = Vec::new();
                blocks.push(block);
                Ok(blocks)
            },
            DataSource::Ec2 { config } => ec2::fetch_data(&clients.ec2, config),
            DataSource::Rds { config } => match rds::fetch_data(&clients.rds, config) {
                Ok(block) => {
                    let mut blocks: Vec<PromptData> = Vec::new();
                    blocks.push(block);
                    Ok(blocks)
                },
                Err(e) => Err(e),
            },
            DataSource::CloudwatchMetric { config } => cloudwatch_metric::fetch_data(
                &clients.cloudwatch,
                &clients.ec2,
                config,
                &context.range,
            ),
            DataSource::CloudwatchLogInsight { config } => match cloudwatch_log_insight::fetch_data(
                &clients.logs,
                &clients.pause,
                config,
                &context.range,
            ) {
                Ok(block) => {
                    assert(texts(block.description@).len() == 3);
                    let mut blocks: Vec<PromptData> = Vec::new();
                    blocks.push(block);
                    Ok(blocks)
                },
                Err(e) => Err(e),
            },
        }
    }
}

impl PartialEq for DataSource {
    /// Data sources are equal in order where their keys are.
    fn eq(&self, other: &Self) -> (r: bool) {
        self.order_no() == other.order_no()
    }
}

impl PartialEqSpecImpl for DataSource {
    /// `==` on data sources is what `eq_spec` says.
    open spec fn obeys_eq_spec() -> bool {
        true
    }

    /// Data sources are equal in order where their keys are.
    open spec fn eq_spec(&self, other: &Self) -> bool {
        self.key() == other.key()
    }
}

impl PartialOrd for DataSource {
    /// Data sources are ordered by their keys.
    fn partial_cmp(&self, other: &Self) -> (r: Option<Ordering>) {
        if self.order_no() < other.order_no() {
            Some(Ordering::Less)
        } else if self.order_no() == other.order_no() {
            Some(Ordering::Equal)
        } else {
            Some(Ordering::Greater)
        }
    }
}

impl PartialOrdSpecImpl for DataSource {
    /// Comparing data sources is what `partial_cmp_spec` says.
    open spec fn obeys_partial_cmp_spec() -> bool {
        true
    }

    /// Data sources are ordered by their keys.
    open spec fn partial_cmp_spec(&self, other: &Self) -> Option<Ordering> {
        if self.key() < other.key() {
            Some(Ordering::Less)
        } else if self.key() == other.key() {
            Some(Ordering::Equal)
        } else {
            Some(Ordering::Greater)
        }
    }
}

} // verus!
