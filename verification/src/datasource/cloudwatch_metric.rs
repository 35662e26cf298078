//! Metrics: the configured dimension is resolved, each resolved dimension is
//! queried over the run's span of time, and the points that come back become
//! a table with the latest point first.

use crate::config::CloudwatchMetricConfig;
use crate::context::DateTimeRange;
use crate::datasource::ec2::{fetch_instances, Ec2Client, Instance};
use crate::error::{ClientError, FetchError, Field};
use crate::prompt::{carries, PromptData};
use crate::table::{is_text, no_data_text, table_text, Table};
use crate::text::{prefixed, same_text, texts, wrap};
use crate::timezone::{format_local_time, local_time_text};
use vstd::prelude::*;
use vstd::string::StringExecFns;

verus! {

/// A name and a value that select one series of a metric.
#[derive(Debug)]
pub struct Dimension {
    pub name: String,
    pub value: String,
}

/// One query for a statistic of a metric.
#[derive(Debug)]
pub struct MetricDataQuery {
    pub id: String,
    pub namespace: String,
    pub metric_name: String,
    pub dimension: Dimension,
    pub stat: String,
    pub period: i32,
}

/// The points of one series: instants in milliseconds after the Unix epoch,
/// and the values at them as text.
#[derive(Debug)]
pub struct MetricDataResult {
    pub timestamps: Vec<i64>,
    pub values: Vec<String>,
}

/// The answer to a query.
#[derive(Debug)]
pub struct GetMetricDataOutput {
    pub metric_data_results: Vec<MetricDataResult>,
}

/// The metric service as this module uses it.
pub trait CloudwatchClient {
    /// Reads the points of `query` over a span of time, given in
    /// milliseconds after the Unix epoch.
    fn get_metric_data(&self, start_time: i64, end_time: i64, query: MetricDataQuery) -> Result<
        GetMetricDataOutput,
        ClientError,
    >;
}

/// The seconds that one point of a statistic covers.
pub const PERIOD_SECONDS: i32 = 60;

/// The namespace whose dimension value is the name of compute instances.
pub open spec fn compute_namespace() -> Seq<char> {
    "AWS/EC2"@
}

/// The header of a metric's table.
pub open spec fn header() -> Seq<Seq<char>> {
    seq!["timestamp"@, "value"@]
}

/// The description lines of a metric read for a dimension: three lines, and
/// a fourth where a unit is configured.
pub open spec fn description_of(config: CloudwatchMetricConfig, dimension: Dimension) -> Seq<
    Seq<char>,
> {
    let lines = seq![
        "Information: [Cloudwatch "@ + config.metric_namespace@ + "]"@,
        "Metric: [`"@ + config.metric_name@ + "`]"@,
        "Dimension: [`"@ + dimension.name@ + ":"@ + dimension.value@ + "`]"@,
    ];
    match config.metric_unit {
        Some(unit) => lines.push("Unit: "@ + unit@),
        None => lines,
    }
}

/// The number of points of a series: a timestamp without a value, or a value
/// without a timestamp, is no point.
pub open spec fn point_count(result: MetricDataResult) -> int {
    if result.timestamps@.len() <= result.values@.len() {
        result.timestamps@.len() as int
    } else {
        result.values@.len() as int
    }
}

/// The first `n` rows of a series in a zone, latest point first: row `k`
/// holds the `k`-th timestamp and the `k`-th value, both counted from the
/// end. A timestamp that cannot be shown ends the reading.
pub open spec fn series_rows(result: MetricDataResult, zone: Seq<char>, n: int) -> Result<
    Seq<Seq<Seq<char>>>,
    FetchError,
>
    decreases n,
{
    if n <= 0 {
        Ok(Seq::empty())
    } else {
        match series_rows(result, zone, n - 1) {
            Err(e) => Err(e),
            Ok(rows) => {
                let millis = result.timestamps@[result.timestamps@.len() - n];
                match local_time_text(millis as int, zone) {
                    None => Err(FetchError::Timestamp { millis }),
                    Some(time) => Ok(
                        rows.push(seq![time, result.values@[result.values@.len() - n]@]),
                    ),
                }
            },
        }
    }
}

/// The rows of all series of an answer, series after series.
pub open spec fn all_rows(results: Seq<MetricDataResult>, zone: Seq<char>) -> Result<
    Seq<Seq<Seq<char>>>,
    FetchError,
>
    decreases results.len(),
{
    if results.len() == 0 {
        Ok(Seq::empty())
    } else {
        match all_rows(results.drop_last(), zone) {
            Err(e) => Err(e),
            Ok(rows) => match series_rows(results.last(), zone, point_count(results.last())) {
                Err(e) => Err(e),
                Ok(more) => Ok(rows + more),
            },
        }
    }
}

/// The table of an answer's points in a zone.
pub open spec fn extracted(results: Seq<MetricDataResult>, zone: Seq<char>) -> Result<
    Seq<char>,
    FetchError,
> {
    match all_rows(results, zone) {
        Err(e) => Err(e),
        Ok(rows) => Ok(table_text(header(), rows)),
    }
}

/// The dimension that an instance stands for: the configured name with the
/// instance's identifier.
pub open spec fn is_dimension_of(
    dimension: Dimension,
    config: CloudwatchMetricConfig,
    instance: Instance,
) -> bool {
    dimension.name@ == config.dimension_name@ && dimension.value@ == instance.instance_id->0@
}

/// Whether `block` is what the metric comes to for `dimension` when the
/// service answers with `results`: the description for a dimension of the
/// configured name, and the table of the answer's points in the zone.
pub open spec fn is_block_for(
    block: PromptData,
    config: CloudwatchMetricConfig,
    zone: Seq<char>,
    dimension: Dimension,
    results: Seq<MetricDataResult>,
) -> bool {
    &&& dimension.name@ == config.dimension_name@
    &&& extracted(results, zone) is Ok
    &&& carries(block, description_of(config, dimension), Some(extracted(results, zone)->Ok_0))
}

/// Whether `block` is what the metric comes to for some dimension of the
/// configured name and some answer of the service.
pub open spec fn is_metric_block(block: PromptData, config: CloudwatchMetricConfig, zone: Seq<char>)
    -> bool {
    exists|dimension: Dimension, results: Seq<MetricDataResult>| #[trigger]
        is_block_for(block, config, zone, dimension, results)
}

/// The rows of a series that can be shown come latest point first: there are
/// as many rows as points, and row `k` holds the `k`-th timestamp from the
/// end, as it reads in the zone, beside the `k`-th value from the end.
pub proof fn lemma_latest_first(result: MetricDataResult, zone: Seq<char>, n: int)
    requires
        0 <= n <= point_count(result),
        series_rows(result, zone, n) is Ok,
    ensures
        series_rows(result, zone, n)->Ok_0.len() == n,
        forall|k: int|
            0 <= k < n ==> #[trigger] series_rows(result, zone, n)->Ok_0[k] == seq![
                local_time_text(
                    result.timestamps@[result.timestamps@.len() - 1 - k] as int,
                    zone,
                )->0,
                result.values@[result.values@.len() - 1 - k]@,
            ],
    decreases n,
{
    if n > 0 {
        lemma_latest_first(result, zone, n - 1);
    }
}

/// An answer in which no series has a point comes to the fixed text that
/// stands for an empty table, whatever the zone.
pub proof fn lemma_no_points(results: Seq<MetricDataResult>, zone: Seq<char>)
    requires
        forall|i: int| 0 <= i < results.len() ==> point_count(#[trigger] results[i]) == 0,
    ensures
        all_rows(results, zone) == Ok::<Seq<Seq<Seq<char>>>, FetchError>(Seq::empty()),
        extracted(results, zone) == Ok::<Seq<char>, FetchError>(no_data_text()),
    decreases results.len(),
{
    if results.len() > 0 {
        let front = results.drop_last();
        lemma_no_points(front, zone);
        assert(Seq::<Seq<Seq<char>>>::empty() + Seq::<Seq<Seq<char>>>::empty() == Seq::<
            Seq<Seq<char>>,
        >::empty());
    }
}

/// The query for the configured statistic of the configured metric, read for
/// `dimension` in points of a minute.
pub fn build_query(config: &CloudwatchMetricConfig, dimension: &Dimension) -> (r: MetricDataQuery)
    ensures
        r.id@ == config.metric_identifier@,
        r.namespace@ == config.metric_namespace@,
        r.metric_name@ == config.metric_name@,
        r.dimension.name@ == dimension.name@,
        r.dimension.value@ == dimension.value@,
        r.stat@ == config.metric_stat@,
        r.period == PERIOD_SECONDS,
{
    MetricDataQuery {
        id: config.metric_identifier.clone(),
        namespace: config.metric_namespace.clone(),
        metric_name: config.metric_name.clone(),
        dimension: Dimension { name: dimension.name.clone(), value: dimension.value.clone() },
        stat: config.metric_stat.clone(),
        period: PERIOD_SECONDS,
    }
}

/// The description lines of a metric read for `dimension`.
pub fn build_description(config: &CloudwatchMetricConfig, dimension: &Dimension) -> (r: Vec<String>)
    ensures
        texts(r@) == description_of(*config, *dimension),
{
    let mut dimension_line = wrap("Dimension: [`", dimension.name.as_str(), ":");
    dimension_line.append(dimension.value.as_str());
    dimension_line.append("`]");
    let mut lines: Vec<String> = Vec::new();
    lines.push(wrap("Information: [Cloudwatch ", config.metric_namespace.as_str(), "]"));
    lines.push(wrap("Metric: [`", config.metric_name.as_str(), "`]"));
    lines.push(dimension_line);
    match &config.metric_unit {
        Some(unit) => {
            lines.push(prefixed("Unit: ", unit.as_str()));
        },
        None => {},
    }
    lines
}

/// The points of an answer as a table with the header `timestamp`, `value`,
/// the latest point of each series first and each timestamp as it reads in
/// the range's zone. An answer without points gives the fixed text that
/// stands for an empty table.
pub fn extract_to_csv(range: &DateTimeRange, output: &GetMetricDataOutput) -> (r: Result<
    Option<String>,
    FetchError,
>)
    ensures
        is_text(r, extracted(output.metric_data_results@, range.time_zone@)),
        output.metric_data_results@.len() == 0 ==> (r matches Ok(Some(s)) && s@ == no_data_text()),
        r matches Ok(data) ==> data is Some,
{
    let mut head: Vec<String> = Vec::new();
    head.push(String::from_str("timestamp"));
    head.push(String::from_str("value"));
    let mut table = Table::new(&head);
    let mut i: usize = 0;
    while i < output.metric_data_results.len()
        invariant
            i <= output.metric_data_results.len(),
            table.header() == header(),
            all_rows(output.metric_data_results@.take(i as int), range.time_zone@) == Ok::<
                Seq<Seq<Seq<char>>>,
                FetchError,
            >(table.rows()),
        decreases output.metric_data_results.len() - i,
    {
        let result = &output.metric_data_results[i];
        let ghost upto = output.metric_data_results@.take(i + 1);
        let ghost before = table.rows();
        assert(upto.drop_last() == output.metric_data_results@.take(i as int));
        let count: usize = if result.timestamps.len() <= result.values.len() {
            result.timestamps.len()
        } else {
            result.values.len()
        };
        let mut k: usize = 0;
        while k < count
            invariant
                k <= count,
                i < output.metric_data_results.len(),
                *result == output.metric_data_results@[i as int],
                all_rows(output.metric_data_results@.take(i as int), range.time_zone@) == Ok::<
                    Seq<Seq<Seq<char>>>,
                    FetchError,
                >(before),
                count == point_count(*result),
                table.header() == header(),
                series_rows(*result, range.time_zone@, k as int) is Ok,
                table.rows() == before + series_rows(*result, range.time_zone@, k as int)->Ok_0,
            decreases count - k,
        {
            let millis: i64 = result.timestamps[result.timestamps.len() - 1 - k];
            let value = &result.values[result.values.len() - 1 - k];
            match format_local_time(millis, range.time_zone.as_str()) {
                None => {
                    proof {
                        let upto = output.metric_data_results@.take(i + 1);
                        assert(upto.drop_last() == output.metric_data_results@.take(i as int));
                        lemma_series_fails(*result, range.time_zone@, k + 1, count as int);
                        lemma_all_rows_fails(
                            output.metric_data_results@,
                            range.time_zone@,
                            i + 1,
                        );
                    }
                    return Err(FetchError::Timestamp { millis });
                },
                Some(time) => {
                    let mut row: Vec<String> = Vec::new();
                    row.push(time);
                    row.push(value.clone());
                    assert(texts(row@) == seq![time@, value@]);
                    match table.add_row(&row) {
                        Ok(t) => {
                            table = t;
                        },
                        Err(e) => {
                            return Err(e);
                        },
                    }
                },
            }
            k += 1;
        }
        i += 1;
    }
    assert(output.metric_data_results@.take(output.metric_data_results.len() as int)
        == output.metric_data_results@);
    Ok(Some(table.finish()))
}

/// Once the first rows of a series cannot be shown, neither can more.
pub proof fn lemma_series_fails(result: MetricDataResult, zone: Seq<char>, n: int, m: int)
    requires
        0 <= n <= m,
        series_rows(result, zone, n) is Err,
    ensures
        series_rows(result, zone, m) == series_rows(result, zone, n),
    decreases m - n,
{
    if n < m {
        lemma_series_fails(result, zone, n + 1, m);
    }
}

/// Once a front part of the series has failed, all the series fail the same
/// way.
pub proof fn lemma_all_rows_fails(results: Seq<MetricDataResult>, zone: Seq<char>, n: int)
    requires
        0 <= n <= results.len(),
        all_rows(results.take(n), zone) is Err,
    ensures
        all_rows(results, zone) == all_rows(results.take(n), zone),
    decreases results.len() - n,
{
    if n < results.len() {
        let longer = results.take(n + 1);
        assert(longer.drop_last() == results.take(n));
        lemma_all_rows_fails(results, zone, n + 1);
    } else {
        assert(results.take(n) == results);
    }
}

/// Reading points fails only for a timestamp that cannot be shown.
pub proof fn lemma_extraction_errors(results: Seq<MetricDataResult>, zone: Seq<char>)
    ensures
        extracted(results, zone) matches Err(e) ==> e is Timestamp,
{
    lemma_all_rows_errors(results, zone);
}

/// Reading a series fails only for a timestamp that cannot be shown.
proof fn lemma_series_errors(result: MetricDataResult, zone: Seq<char>, n: int)
    ensures
        series_rows(result, zone, n) matches Err(e) ==> e is Timestamp,
    decreases n,
{
    if n > 0 {
        lemma_series_errors(result, zone, n - 1);
    }
}

/// Reading all series fails only as reading one does.
proof fn lemma_all_rows_errors(results: Seq<MetricDataResult>, zone: Seq<char>)
    ensures
        all_rows(results, zone) matches Err(e) ==> e is Timestamp,
    decreases results.len(),
{
    if results.len() > 0 {
        lemma_all_rows_errors(results.drop_last(), zone);
        lemma_series_errors(results.last(), zone, point_count(results.last()));
    }
}

/// What one answer contributes for a dimension: the metric's description and
/// the table of the answer's points.
pub fn block_of(
    config: &CloudwatchMetricConfig,
    dimension: &Dimension,
    range: &DateTimeRange,
    output: &GetMetricDataOutput,
) -> (r: Result<PromptData, FetchError>)
    ensures
        match extracted(output.metric_data_results@, range.time_zone@) {
            Ok(table) => (r matches Ok(block) && carries(
                block,
                description_of(*config, *dimension),
                Some(table),
            )),
            Err(e) => r == Err::<PromptData, FetchError>(e),
        },
{
    let description = build_description(config, dimension);
    match extract_to_csv(range, output) {
        Ok(data) => Ok(PromptData { description, data }),
        Err(e) => Err(e),
    }
}

/// The dimensions that the given instances stand for, one for each, or the
/// missing identifier of the first instance without one.
pub fn instance_dimensions(config: &CloudwatchMetricConfig, instances: &Vec<Instance>) -> (r:
    Result<Vec<Dimension>, FetchError>)
    ensures
        (forall|i: int| 0 <= i < instances@.len() ==> (#[trigger] instances@[i]).instance_id
            is Some) ==> (r matches Ok(dimensions) && dimensions@.len() == instances@.len()
            && forall|i: int|
            0 <= i < dimensions@.len() ==> is_dimension_of(
                #[trigger] dimensions@[i],
                *config,
                instances@[i],
            )),
        (exists|i: int| 0 <= i < instances@.len() && (#[trigger] instances@[i]).instance_id
            is None) ==> r == Err::<Vec<Dimension>, FetchError>(
            FetchError::MissingField(Field::InstanceId),
        ),
{
    let mut dimensions: Vec<Dimension> = Vec::new();
    let mut i: usize = 0;
    while i < instances.len()
        invariant
            i <= instances.len(),
            dimensions@.len() == i,
            forall|j: int| 0 <= j < i ==> (#[trigger] instances@[j]).instance_id is Some,
            forall|j: int|
                0 <= j < i ==> is_dimension_of(#[trigger] dimensions@[j], *config, instances@[j]),
        decreases instances.len() - i,
    {
        match &instances[i].instance_id {
            Some(id) => {
                dimensions.push(
                    Dimension { name: config.dimension_name.clone(), value: id.clone() },
                );
            },
            None => {
                return Err(FetchError::MissingField(Field::InstanceId));
            },
        }
        i += 1;
    }
    Ok(dimensions)
}

/// The dimensions to read the metric for. In the namespace of compute
/// instances the configured value is the name of instances, and each
/// instance of that name gives a dimension; in any other namespace the
/// configured dimension is the only one.
pub fn build_dimension<E: Ec2Client>(ec2_client: &E, config: &CloudwatchMetricConfig) -> (r:
    Result<Vec<Dimension>, FetchError>)
    ensures
        r matches Ok(dimensions) ==> dimensions@.len() > 0 && forall|i: int|
            0 <= i < dimensions@.len() ==> (#[trigger] dimensions@[i]).name@
                == config.dimension_name@,
        config.metric_namespace@ != compute_namespace() ==> (r matches Ok(dimensions)
            && dimensions@.len() == 1 && dimensions@[0].value@ == config.dimension_value@),
        r matches Err(e) ==> e is Client || e is InstanceNotFound || e == FetchError::MissingField(
            Field::InstanceId,
        ),
{
    if same_text(&config.metric_namespace, "AWS/EC2") {
        match fetch_instances(ec2_client, &config.dimension_value) {
            Ok(instances) => {
                instance_dimensions(config, &instances)
            },
            Err(e) => Err(e),
        }
    } else {
        let mut dimensions: Vec<Dimension> = Vec::new();
        dimensions.push(
            Dimension {
                name: config.dimension_name.clone(),
                value: config.dimension_value.clone(),
            },
        );
        Ok(dimensions)
    }
}

/// Reads the metric: one block for each resolved dimension. Whatever the
/// services answer, there is at least one block, and every block carries the
/// description of the metric for a dimension of the configured name and the
/// table of the points of some answer.
pub fn fetch_data<C: CloudwatchClient, E: Ec2Client>(
    client: &C,
    ec2_client: &E,
    config: &CloudwatchMetricConfig,
    range: &DateTimeRange,
) -> (r: Result<Vec<PromptData>, FetchError>)
    ensures
        r matches Ok(blocks) ==> blocks@.len() > 0 && forall|i: int|
            0 <= i < blocks@.len() ==> (#[trigger] blocks@[i]).description@.len() > 0
                && blocks@[i].data is Some,
        r matches Err(e) ==> e is Client || e is Timestamp || e is InstanceNotFound || e
            == FetchError::MissingField(Field::InstanceId),
        r matches Ok(blocks) ==> forall|i: int|
            0 <= i < blocks@.len() ==> is_metric_block(
                #[trigger] blocks@[i],
                *config,
                range.time_zone@,
            ),
        r matches Ok(blocks) ==> (config.metric_namespace@ != compute_namespace()
            ==> blocks@.len() == 1 && texts(blocks@[0].description@) == description_of(
            *config,
            (Dimension { name: config.dimension_name, value: config.dimension_value }),
        )),
{
    let dimensions = match build_dimension(ec2_client, config) {
        Ok(dimensions) => dimensions,
        Err(e) => {
            return Err(e);
        },
    };
    let mut blocks: Vec<PromptData> = Vec::new();
    let mut i: usize = 0;
    while i < dimensions.len()
        invariant
            i <= dimensions.len(),
            blocks@.len() == i,
            forall|j: int|
                0 <= j < i ==> texts((#[trigger] blocks@[j]).description@) == description_of(
                    *config,
                    dimensions@[j],
                ) && blocks@[j].data is Some,
            forall|j: int|
                0 <= j < i ==> is_metric_block(#[trigger] blocks@[j], *config, range.time_zone@),
            forall|j: int|
                0 <= j < dimensions@.len() ==> (#[trigger] dimensions@[j]).name@
                    == config.dimension_name@,
        decreases dimensions.len() - i,
    {
        let dimension = &dimensions[i];
        let query = build_query(config, dimension);
        let output = match client.get_metric_data(range.start_time, range.end_time, query) {
            Ok(output) => output,
            Err(e) => {
                return Err(FetchError::Client(e));
            },
        };
        match block_of(config, dimension, range, &output) {
            Ok(block) => {
                assert(is_block_for(
                    block,
                    *config,
                    range.time_zone@,
                    *dimension,
                    output.metric_data_results@,
                ));
                blocks.push(block);
            },
            Err(e) => {
                proof {
                    lemma_extraction_errors(output.metric_data_results@, range.time_zone@);
                }
                return Err(e);
            },
        }
        i += 1;
    }
    Ok(blocks)
}

} // verus!
