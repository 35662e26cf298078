//! Managed databases: the database with the configured identifier is found
//! among all that the service lists.

use crate::config::RdsConfig;
use crate::error::{ClientError, FetchError, Field};
use crate::prompt::{carries, PromptData};
use crate::text::{bool_text, bool_to_string, texts, wrap};
use vstd::prelude::*;
use vstd::string::StringExecFns;

verus! {

/// A database as the service describes it.
#[derive(Debug)]
pub struct DbInstance {
    pub db_instance_identifier: Option<String>,
    pub db_instance_class: Option<String>,
    pub engine: Option<String>,
    pub engine_version: Option<String>,
    pub storage_type: Option<String>,
    pub db_instance_status: Option<String>,
    pub multi_az: Option<bool>,
}

/// The answer to describing databases.
#[derive(Debug)]
pub struct DescribeDbInstancesOutput {
    pub db_instances: Option<Vec<DbInstance>>,
}

/// The database service as this module uses it.
pub trait RdsClient {
    /// Describes all databases that the credentials can see.
    fn describe_db_instances(&self) -> Result<DescribeDbInstancesOutput, ClientError>;
}

/// The databases of an answer; none where the answer carries no list.
pub open spec fn listed(output: DescribeDbInstancesOutput) -> Seq<DbInstance> {
    match output.db_instances {
        Some(instances) => instances@,
        None => Seq::empty(),
    }
}

/// The identifier of a database; empty where it has none.
pub open spec fn identifier_of(instance: DbInstance) -> Seq<char> {
    match instance.db_instance_identifier {
        Some(id) => id@,
        None => Seq::empty(),
    }
}

/// The first field that the description of a database needs and the database
/// lacks.
pub open spec fn missing_field(instance: DbInstance) -> Option<Field> {
    if instance.db_instance_class is None {
        Some(Field::DbInstanceClass)
    } else if instance.engine is None {
        Some(Field::Engine)
    } else if instance.engine_version is None {
        Some(Field::EngineVersion)
    } else if instance.storage_type is None {
        Some(Field::StorageType)
    } else if instance.db_instance_status is None {
        Some(Field::DbInstanceStatus)
    } else if instance.multi_az is None {
        Some(Field::MultiAz)
    } else {
        None
    }
}

/// The seven description lines of a database that lacks no field.
pub open spec fn description_of(config: RdsConfig, instance: DbInstance) -> Seq<Seq<char>> {
    seq![
        "Information: [RDS Instance]"@,
        "DB identifier: [`"@ + config.db_identifier@ + "`]"@,
        "Class: [`"@ + instance.db_instance_class->0@ + "`]"@,
        "Engine: ["@ + instance.engine->0@ + " "@ + instance.engine_version->0@ + "]"@,
        "Storage type: ["@ + instance.storage_type->0@ + "]"@,
        "Status: ["@ + instance.db_instance_status->0@ + "]"@,
        "Multi AZ: ["@ + bool_text(instance.multi_az->0) + "]"@,
    ]
}

/// What a database comes to: its block, without a table, or the first field
/// it lacks.
pub open spec fn is_block_of(
    r: Result<PromptData, FetchError>,
    config: RdsConfig,
    instance: DbInstance,
) -> bool {
    match missing_field(instance) {
        Some(field) => r == Err::<PromptData, FetchError>(FetchError::MissingField(field)),
        None => (r matches Ok(block) && carries(block, description_of(config, instance), None)),
    }
}

/// The description lines of a database, or the first field it lacks.
pub fn build_description(config: &RdsConfig, instance: &DbInstance) -> (r: Result<
    Vec<String>,
    FetchError,
>)
    ensures
        match missing_field(*instance) {
            Some(field) => r == Err::<Vec<String>, FetchError>(FetchError::MissingField(field)),
            None => (r matches Ok(lines) && texts(lines@) == description_of(*config, *instance)),
        },
{
    let class = match &instance.db_instance_class {
        Some(class) => class,
        None => {
            return Err(FetchError::MissingField(Field::DbInstanceClass));
        },
    };
    let engine = match &instance.engine {
        Some(engine) => engine,
        None => {
            return Err(FetchError::MissingField(Field::Engine));
        },
    };
    let engine_version = match &instance.engine_version {
        Some(version) => version,
        None => {
            return Err(FetchError::MissingField(Field::EngineVersion));
        },
    };
    let storage_type = match &instance.storage_type {
        Some(storage) => storage,
        None => {
            return Err(FetchError::MissingField(Field::StorageType));
        },
    };
    let status = match &instance.db_instance_status {
        Some(status) => status,
        None => {
            return Err(FetchError::MissingField(Field::DbInstanceStatus));
        },
    };
    let multi_az = match instance.multi_az {
        Some(flag) => flag,
        None => {
            return Err(FetchError::MissingField(Field::MultiAz));
        },
    };
    let mut engine_line = wrap("Engine: [", engine.as_str(), " ");
    engine_line.append(engine_version.as_str());
    engine_line.append("]");
    let mut lines: Vec<String> = Vec::new();
    lines.push(String::from_str("Information: [RDS Instance]"));
    lines.push(wrap("DB identifier: [`", config.db_identifier.as_str(), "`]"));
    lines.push(wrap("Class: [`", class.as_str(), "`]"));
    lines.push(engine_line);
    lines.push(wrap("Storage type: [", storage_type.as_str(), "]"));
    lines.push(wrap("Status: [", status.as_str(), "]"));
    lines.push(wrap("Multi AZ: [", bool_to_string(multi_az).as_str(), "]"));
    Ok(lines)
}

/// Whether the database at `k` is the first listed one with the configured
/// identifier.
pub open spec fn is_first_match(config: RdsConfig, output: DescribeDbInstancesOutput, k: int)
    -> bool {
    &&& 0 <= k < listed(output).len()
    &&& identifier_of(listed(output)[k]) == config.db_identifier@
    &&& forall|i: int| 0 <= i < k ==> identifier_of(#[trigger] listed(output)[i])
        != config.db_identifier@
}

/// Whether some listed database has the configured identifier.
pub open spec fn is_listed(config: RdsConfig, output: DescribeDbInstancesOutput) -> bool {
    exists|k: int|
        0 <= k < listed(output).len() && identifier_of(#[trigger] listed(output)[k])
            == config.db_identifier@
}

/// The place of the first listed database with the configured identifier,
/// if there is one.
pub fn position(config: &RdsConfig, output: &DescribeDbInstancesOutput) -> (r: Option<usize>)
    ensures
        match r {
            Some(k) => is_first_match(*config, *output, k as int),
            None => !is_listed(*config, *output),
        },
{
    match &output.db_instances {
        Some(instances) => {
            let mut i: usize = 0;
            while i < instances.len()
                invariant
                    i <= instances.len(),
                    instances@ == listed(*output),
                    forall|j: int|
                        0 <= j < i ==> identifier_of(#[trigger] instances@[j])
                            != config.db_identifier@,
                decreases instances.len() - i,
            {
                let found = match &instances[i].db_instance_identifier {
                    Some(id) => *id == config.db_identifier,
                    None => {
                        let empty = String::new();
                        empty == config.db_identifier
                    },
                };
                if found {
                    return Some(i);
                }
                i += 1;
            }
            None
        },
        None => None,
    }
}

/// Whether some listed database has the configured identifier.
pub fn has_database(config: &RdsConfig, output: &DescribeDbInstancesOutput) -> (r: bool)
    ensures
        r == is_listed(*config, *output),
{
    position(config, output).is_some()
}

/// The block of the first listed database whose identifier is the configured
/// one, in an answer that lists such a database.
pub fn find_database(config: &RdsConfig, output: &DescribeDbInstancesOutput) -> (r: Result<
    PromptData,
    FetchError,
>)
    requires
        is_listed(*config, *output),
    ensures
        forall|k: int| #[trigger]
            is_first_match(*config, *output, k) ==> is_block_of(r, *config, listed(*output)[k]),
        r matches Ok(block) ==> exists|k: int|
            0 <= k < listed(*output).len() && identifier_of(#[trigger] listed(*output)[k])
                == config.db_identifier@ && carries(
                block,
                description_of(*config, listed(*output)[k]),
                None,
            ),
        r matches Ok(block) ==> block.description@.len() == 7 && block.data is None,
        r matches Err(e) ==> e is MissingField,
{
    match (position(config, output), &output.db_instances) {
        (Some(k), Some(instances)) => {
            assert forall|j: int| #[trigger] is_first_match(*config, *output, j) implies j
                == k by {
                if j < k {
                    assert(identifier_of(listed(*output)[j]) != config.db_identifier@);
                } else if k < j {
                    assert(identifier_of(listed(*output)[k as int]) != config.db_identifier@);
                }
            }
            match build_description(config, &instances[k]) {
                Ok(description) => {
                    assert(texts(description@).len() == 7);
                    Ok(PromptData { description, data: None })
                },
                Err(e) => Err(e),
            }
        },
        _ => vstd::pervasive::unreached(),
    }
}

/// What the service's answer comes to for the configured database. A failure
/// of the service is handed on. An answer that lists no database with the
/// configured identifier means that the database is not found. Any other
/// answer gives the block of the first such database.
pub fn database_of(config: &RdsConfig, answer: Result<DescribeDbInstancesOutput, ClientError>)
    -> (r: Result<PromptData, FetchError>)
    ensures
        match answer {
            Err(e) => r == Err::<PromptData, FetchError>(FetchError::Client(e)),
            Ok(output) => {
                &&& !is_listed(*config, output) ==> r == Err::<PromptData, FetchError>(
                    FetchError::DbInstanceNotFound { name: config.db_identifier },
                )
                &&& forall|k: int| #[trigger]
                    is_first_match(*config, output, k) ==> is_block_of(
                        r,
                        *config,
                        listed(output)[k],
                    )
            },
        },
        r matches Ok(block) ==> exists|instance: DbInstance|
            identifier_of(instance) == config.db_identifier@ && #[trigger] carries(
                block,
                description_of(*config, instance),
                None,
            ),
        r matches Ok(block) ==> block.description@.len() == 7 && block.data is None,
        r matches Err(e) ==> e is Client || e is MissingField || e == (
        FetchError::DbInstanceNotFound { name: config.db_identifier }),
{
    match answer {
        Err(e) => Err(FetchError::Client(e)),
        Ok(output) => {
            if has_database(config, &output) {
                find_database(config, &output)
            } else {
                Err(FetchError::DbInstanceNotFound { name: config.db_identifier.clone() })
            }
        },
    }
}

/// Reads the database with the configured identifier. Whatever the service
/// answers, a block that comes back is the description of a database with
/// that identifier, seven lines, and carries no table.
pub fn fetch_data<C: RdsClient>(client: &C, config: &RdsConfig) -> (r: Result<
    PromptData,
    FetchError,
>)
    ensures
        r matches Ok(block) ==> exists|instance: DbInstance|
            identifier_of(instance) == config.db_identifier@ && #[trigger] carries(
                block,
                description_of(*config, instance),
                None,
            ),
        r matches Ok(block) ==> block.description@.len() == 7 && block.data is None,
        r matches Err(e) ==> e is Client || e is MissingField || e == (
        FetchError::DbInstanceNotFound { name: config.db_identifier }),
{
    database_of(config, client.describe_db_instances())
}

} // verus!
