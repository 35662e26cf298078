//! What a run is given once and reads from then on.

use crate::args::{
    build_start_and_end, has_complete_range, range_is_complete, span_of, Args,
};
use crate::config::{
    AppDescConfig, CloudwatchLogInsightConfig, CloudwatchMetricConfig, Config, Ec2Config,
    RdsConfig,
};
use crate::datasource::ds::DataSource;
use crate::datasource::sorting::{in_order, is_sorting_of, sort_sources};
use crate::error::ContextError;
use crate::timezone::zone_known;
use vstd::prelude::*;
use vstd::string::StringExecFns;

verus! {

/// The span of time a run looks at, in milliseconds since the Unix epoch, and
/// the name of the time zone in which timestamps are shown.
#[derive(Debug)]
pub struct DateTimeRange {
    pub start_time: i64,
    pub end_time: i64,
    pub time_zone: String,
}

impl Default for DateTimeRange {
    /// The empty span at the epoch, shown in universal time.
    fn default() -> (r: DateTimeRange)
        ensures
            r.start_time == 0,
            r.end_time == 0,
            r.time_zone@ == "UTC"@,
    {
        DateTimeRange { start_time: 0, end_time: 0, time_zone: String::from_str("UTC") }
    }
}

/// What a run is given: the credentials profile, the span of time, the data
/// sources in the order in which they are read, the settings of the language
/// model, and how the run is to proceed.
#[derive(Debug, Default)]
pub struct AppContext {
    pub profile: String,
    pub range: DateTimeRange,
    pub data_sources: Vec<DataSource>,
    pub open_ai_api_key: Option<String>,
    pub open_ai_model: String,
    pub open_ai_max_token: u32,
    pub print_prompt_data: bool,
    pub dry_run: bool,
}

/// The records of a section; none where the section is absent.
pub open spec fn records<T>(section: Option<Vec<T>>) -> Seq<T> {
    match section {
        Some(list) => list@,
        None => Seq::empty(),
    }
}

/// The data sources of a configuration as they are configured: kind after
/// kind, and within a kind in the order of the document.
pub open spec fn configured(config: Config) -> Seq<DataSource> {
    records(config.app_description).map_values(
        |c: AppDescConfig| DataSource::AppDescription { config: c },
    ) + records(config.ec2).map_values(|c: Ec2Config| DataSource::Ec2 { config: c }) + records(
        config.rds,
    ).map_values(|c: RdsConfig| DataSource::Rds { config: c }) + records(
        config.cloudwatch_metric,
    ).map_values(|c: CloudwatchMetricConfig| DataSource::CloudwatchMetric { config: c })
        + records(config.cloudwatch_log_insight).map_values(
        |c: CloudwatchLogInsightConfig| DataSource::CloudwatchLogInsight { config: c },
    )
}

/// The name of the zone that a configuration asks for: the universal time
/// where it names none.
pub open spec fn zone_of(config: Config) -> Seq<char> {
    match config.general.time_zone {
        Some(zone) => zone@,
        None => "UTC"@,
    }
}

/// Moves the application descriptions of a section behind `sources`.
fn take_app_descriptions(section: Option<Vec<AppDescConfig>>, sources: &mut Vec<DataSource>)
    ensures
        final(sources)@ == old(sources)@ + records(section).map_values(
            |c: AppDescConfig| DataSource::AppDescription { config: c },
        ),
{
    let ghost wanted = records(section).map_values(
        |c: AppDescConfig| DataSource::AppDescription { config: c },
    );
    match section {
        Some(mut list) => {
            let ghost all = list@;
            while list.len() > 0
                invariant
                    list@.len() <= all.len(),
                    list@ == all.skip(all.len() - list@.len()),
                    sources@ == old(sources)@ + wanted.take(all.len() - list@.len()),
                    wanted == all.map_values(
                        |c: AppDescConfig| DataSource::AppDescription { config: c },
                    ),
                decreases list.len(),
            {
                let config = list.remove(0);
                sources.push(DataSource::AppDescription { config });
            }
        },
        None => {},
    }
}

/// Moves the compute instances of a section behind `sources`.
fn take_ec2(section: Option<Vec<Ec2Config>>, sources: &mut Vec<DataSource>)
    ensures
        final(sources)@ == old(sources)@ + records(section).map_values(
            |c: Ec2Config| DataSource::Ec2 { config: c },
        ),
{
    let ghost wanted = records(section).map_values(|c: Ec2Config| DataSource::Ec2 { config: c });
    match section {
        Some(mut list) => {
            let ghost all = list@;
            while list.len() > 0
                invariant
                    list@.len() <= all.len(),
                    list@ == all.skip(all.len() - list@.len()),
                    sources@ == old(sources)@ + wanted.take(all.len() - list@.len()),
                    wanted == all.map_values(|c: Ec2Config| DataSource::Ec2 { config: c }),
                decreases list.len(),
            {
                let config = list.remove(0);
                sources.push(DataSource::Ec2 { config });
            }
        },
        None => {},
    }
}

/// Moves the databases of a section behind `sources`.
fn take_rds(section: Option<Vec<RdsConfig>>, sources: &mut Vec<DataSource>)
    ensures
        final(sources)@ == old(sources)@ + records(section).map_values(
            |c: RdsConfig| DataSource::Rds { config: c },
        ),
{
    let ghost wanted = records(section).map_values(|c: RdsConfig| DataSource::Rds { config: c });
    match section {
        Some(mut list) => {
            let ghost all = list@;
            while list.len() > 0
                invariant
                    list@.len() <= all.len(),
                    list@ == all.skip(all.len() - list@.len()),
                    sources@ == old(sources)@ + wanted.take(all.len() - list@.len()),
                    wanted == all.map_values(|c: RdsConfig| DataSource::Rds { config: c }),
                decreases list.len(),
            {
                let config = list.remove(0);
                sources.push(DataSource::Rds { config });
            }
        },
        None => {},
    }
}

/// Moves the metrics of a section behind `sources`.
fn take_metrics(section: Option<Vec<CloudwatchMetricConfig>>, sources: &mut Vec<DataSource>)
    ensures
        final(sources)@ == old(sources)@ + records(section).map_values(
            |c: CloudwatchMetricConfig| DataSource::CloudwatchMetric { config: c },
        ),
{
    let ghost wanted = records(section).map_values(
        |c: CloudwatchMetricConfig| DataSource::CloudwatchMetric { config: c },
    );
    match section {
        Some(mut list) => {
            let ghost all = list@;
            while list.len() > 0
                invariant
                    list@.len() <= all.len(),
                    list@ == all.skip(all.len() - list@.len()),
                    sources@ == old(sources)@ + wanted.take(all.len() - list@.len()),
                    wanted == all.map_values(
                        |c: CloudwatchMetricConfig| DataSource::CloudwatchMetric { config: c },
                    ),
                decreases list.len(),
            {
                let config = list.remove(0);
                sources.push(DataSource::CloudwatchMetric { config });
            }
        },
        None => {},
    }
}

/// Moves the log queries of a section behind `sources`.
fn take_log_queries(section: Option<Vec<CloudwatchLogInsightConfig>>, sources: &mut Vec<DataSource>)
    ensures
        final(sources)@ == old(sources)@ + records(section).map_values(
            |c: CloudwatchLogInsightConfig| DataSource::CloudwatchLogInsight { config: c },
        ),
{
    let ghost wanted = records(section).map_values(
        |c: CloudwatchLogInsightConfig| DataSource::CloudwatchLogInsight { config: c },
    );
    match section {
        Some(mut list) => {
            let ghost all = list@;
            while list.len() > 0
                invariant
                    list@.len() <= all.len(),
                    list@ == all.skip(all.len() - list@.len()),
                    sources@ == old(sources)@ + wanted.take(all.len() - list@.len()),
                    wanted == all.map_values(
                        |c: CloudwatchLogInsightConfig| DataSource::CloudwatchLogInsight {
                            config: c,
                        },
                    ),
                decreases list.len(),
            {
                let config = list.remove(0);
                sources.push(DataSource::CloudwatchLogInsight { config });
            }
        },
        None => {},
    }
}

/// Sets up a run from its arguments and its configuration, `now_millis`
/// being the present instant. Arguments that give only one of start and end
/// are refused. The data sources of the run are the configured ones in the
/// order of their keys, and among equal keys as configured.
pub fn build_context(args: Args, config: Config, now_millis: i64) -> (r: Result<
    AppContext,
    ContextError,
>)
    ensures
        !range_is_complete(args) ==> r == Err::<AppContext, ContextError>(
            ContextError::IncompleteRange,
        ),
        range_is_complete(args) && !zone_known(zone_of(config)) ==> (r matches Err(
            ContextError::UnknownTimeZone { name },
        ) && name@ == zone_of(config)),
        range_is_complete(args) && zone_known(zone_of(config)) ==> match span_of(
            args,
            zone_of(config),
            now_millis,
        ) {
            Err(e) => r == Err::<AppContext, ContextError>(e),
            Ok(span) => (r matches Ok(context) && context.range.start_time == span.0
                && context.range.end_time == span.1 && context.range.time_zone@ == zone_of(
                config,
            ) && is_sorting_of(context.data_sources@, configured(config)) && context.profile@
                == config.general.profile@ && context.open_ai_api_key == config.open_ai.api_key
                && context.open_ai_model@ == config.open_ai.model@ && context.open_ai_max_token
                == config.open_ai.max_token && context.print_prompt_data == args.print_prompt_data
                && context.dry_run == args.dry_run),
        },
        r matches Ok(context) ==> in_order(context.data_sources@) && context.range.start_time
            <= context.range.end_time,
{
    if !has_complete_range(&args) {
        return Err(ContextError::IncompleteRange);
    }
    let time_zone = match &config.general.time_zone {
        Some(zone) => zone.clone(),
        None => String::from_str("UTC"),
    };
    let (start_time, end_time) = match build_start_and_end(&args, &time_zone, now_millis) {
        Ok(span) => span,
        Err(e) => {
            return Err(e);
        },
    };
    let mut sources: Vec<DataSource> = Vec::new();
    take_app_descriptions(config.app_description, &mut sources);
    take_ec2(config.ec2, &mut sources);
    take_rds(config.rds, &mut sources);
    take_metrics(config.cloudwatch_metric, &mut sources);
    take_log_queries(config.cloudwatch_log_insight, &mut sources);
    let data_sources = sort_sources(sources);
    Ok(
        AppContext {
            profile: config.general.profile,
            range: DateTimeRange { start_time, end_time, time_zone },
            data_sources,
            open_ai_api_key: config.open_ai.api_key,
            open_ai_model: config.open_ai.model,
            open_ai_max_token: config.open_ai.max_token,
            print_prompt_data: args.print_prompt_data,
            dry_run: args.dry_run,
        },
    )
}

} // verus!
