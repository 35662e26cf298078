//! Compute instances: all instances that carry a configured name are looked
//! up, and each of them becomes a block of its own.

use crate::config::Ec2Config;
use crate::error::{ClientError, FetchError, Field};
use crate::prompt::{carries, PromptData};
use crate::text::{i32_to_string, decimal, texts, wrap};
use vstd::prelude::*;
use vstd::string::StringExecFns;

verus! {

/// How an instance's processor is laid out.
#[derive(Debug)]
pub struct CpuOptions {
    pub core_count: Option<i32>,
    pub threads_per_core: Option<i32>,
}

/// Where an instance is in its life cycle, by name.
#[derive(Debug)]
pub struct InstanceState {
    pub name: Option<String>,
}

/// A compute instance as the service describes it.
#[derive(Debug)]
pub struct Instance {
    pub instance_id: Option<String>,
    pub instance_type: Option<String>,
    pub cpu_options: Option<CpuOptions>,
    pub state: Option<InstanceState>,
}

/// The instances of one launch request.
#[derive(Debug)]
pub struct Reservation {
    pub instances: Vec<Instance>,
}

/// The answer to describing instances.
#[derive(Debug)]
pub struct DescribeInstancesOutput {
    pub reservations: Vec<Reservation>,
}

/// A condition on the instances to describe: an attribute and the values it
/// may have.
#[derive(Debug)]
pub struct Filter {
    pub name: String,
    pub values: Vec<String>,
}

/// The compute service as this module uses it.
pub trait Ec2Client {
    /// Describes the instances that meet `filter`.
    fn describe_instances(&self, filter: Filter) -> Result<DescribeInstancesOutput, ClientError>;
}

/// The instances of all reservations, in the order of the answer.
pub open spec fn all_instances(reservations: Seq<Reservation>) -> Seq<Instance>
    decreases reservations.len(),
{
    if reservations.len() == 0 {
        Seq::empty()
    } else {
        all_instances(reservations.drop_last()) + reservations.last().instances@
    }
}

/// The first field that the description of an instance needs and the
/// instance lacks.
pub open spec fn missing_field(instance: Instance) -> Option<Field> {
    if instance.instance_id is None {
        Some(Field::InstanceId)
    } else if instance.instance_type is None {
        Some(Field::InstanceType)
    } else if instance.cpu_options is None {
        Some(Field::CpuOptions)
    } else if instance.state is None {
        Some(Field::State)
    } else if instance.state->0.name is None {
        Some(Field::StateName)
    } else if instance.cpu_options->0.core_count is None {
        Some(Field::CoreCount)
    } else if instance.cpu_options->0.threads_per_core is None {
        Some(Field::ThreadsPerCore)
    } else {
        None
    }
}

/// The seven description lines of an instance that lacks no field.
pub open spec fn description_of(config: Ec2Config, instance: Instance) -> Seq<Seq<char>> {
    seq![
        "Information: [EC2 Instance]"@,
        "Instance name: [`"@ + config.instance_name@ + "`]"@,
        "Instance id: [`"@ + instance.instance_id->0@ + "`]"@,
        "Instance type: [`"@ + instance.instance_type->0@ + "`]"@,
        "Cpu core count: ["@ + decimal(instance.cpu_options->0.core_count->0 as int) + "]"@,
        "Cpu threads per core: ["@ + decimal(instance.cpu_options->0.threads_per_core->0 as int)
            + "]"@,
        "State: ["@ + instance.state->0.name->0@ + "]"@,
    ]
}

/// Whether `blocks` describe `instances` one for one, without tables.
pub open spec fn describes(blocks: Seq<PromptData>, config: Ec2Config, instances: Seq<Instance>)
    -> bool {
    &&& blocks.len() == instances.len()
    &&& forall|i: int|
        0 <= i < blocks.len() ==> carries(
            #[trigger] blocks[i],
            description_of(config, instances[i]),
            None,
        )
}

/// The condition that selects the instances whose `Name` tag is `name`.
pub fn build_filter(name: &String) -> (r: Filter)
    ensures
        r.name@ == "tag:Name"@,
        texts(r.values@) == seq![name@],
{
    let mut values: Vec<String> = Vec::new();
    values.push(name.clone());
    Filter { name: String::from_str("tag:Name"), values }
}

/// The instances of a front part of the reservations are among those of all.
proof fn lemma_instances_grow(reservations: Seq<Reservation>, n: int)
    requires
        0 <= n <= reservations.len(),
    ensures
        all_instances(reservations.take(n)).len() <= all_instances(reservations).len(),
    decreases reservations.len() - n,
{
    if n < reservations.len() {
        assert(reservations.take(n + 1).drop_last() == reservations.take(n));
        lemma_instances_grow(reservations, n + 1);
    } else {
        assert(reservations.take(n) == reservations);
    }
}

/// Whether an answer holds any instance.
pub fn has_instances(output: &DescribeInstancesOutput) -> (r: bool)
    ensures
        r == (all_instances(output.reservations@).len() > 0),
{
    let mut i: usize = 0;
    while i < output.reservations.len()
        invariant
            i <= output.reservations.len(),
            all_instances(output.reservations@.take(i as int)).len() == 0,
        decreases output.reservations.len() - i,
    {
        assert(output.reservations@.take(i + 1).drop_last() == output.reservations@.take(
            i as int,
        ));
        if output.reservations[i].instances.len() > 0 {
            proof {
                lemma_instances_grow(output.reservations@, i + 1);
            }
            return true;
        }
        i += 1;
    }
    assert(output.reservations@.take(output.reservations.len() as int) == output.reservations@);
    false
}

/// The instances of an answer that holds some, in the answer's order.
pub fn collect_instances(output: DescribeInstancesOutput) -> (r: Vec<Instance>)
    requires
        all_instances(output.reservations@).len() > 0,
    ensures
        r@ == all_instances(output.reservations@),
{
    let ghost reservations = output.reservations@;
    let mut rest = output.reservations;
    let mut instances: Vec<Instance> = Vec::new();
    while rest.len() > 0
        invariant
            rest@.len() <= reservations.len(),
            rest@ == reservations.skip(reservations.len() - rest@.len()),
            instances@ == all_instances(reservations.take(reservations.len() - rest@.len())),
        decreases rest.len(),
    {
        let ghost done = reservations.len() - rest@.len();
        let mut reservation = rest.remove(0);
        assert(reservations.take(done + 1).drop_last() == reservations.take(done));
        instances.append(&mut reservation.instances);
    }
    assert(reservations.take(reservations.len() as int) == reservations);
    instances
}

/// The instances that the service's answer to a lookup by `name` comes to.
/// A failure of the service is handed on. An answer without any instance
/// means that no instance carries the name. Any other answer gives all its
/// instances, in its order.
pub fn instances_of(answer: Result<DescribeInstancesOutput, ClientError>, name: &String) -> (r:
    Result<Vec<Instance>, FetchError>)
    ensures
        match answer {
            Err(e) => r == Err::<Vec<Instance>, FetchError>(FetchError::Client(e)),
            Ok(output) => if all_instances(output.reservations@).len() == 0 {
                r == Err::<Vec<Instance>, FetchError>(FetchError::InstanceNotFound { name: *name })
            } else {
                r matches Ok(instances) && instances@ == all_instances(output.reservations@)
            },
        },
{
    match answer {
        Err(e) => Err(FetchError::Client(e)),
        Ok(output) => {
            if has_instances(&output) {
                Ok(collect_instances(output))
            } else {
                Err(FetchError::InstanceNotFound { name: name.clone() })
            }
        },
    }
}

/// The description lines of an instance, or the first field it lacks.
pub fn build_description(config: &Ec2Config, instance: &Instance) -> (r: Result<
    Vec<String>,
    FetchError,
>)
    ensures
        match missing_field(*instance) {
            Some(field) => r == Err::<Vec<String>, FetchError>(FetchError::MissingField(field)),
            None => (r matches Ok(lines) && texts(lines@) == description_of(*config, *instance)),
        },
{
    let instance_id = match &instance.instance_id {
        Some(id) => id,
        None => {
            return Err(FetchError::MissingField(Field::InstanceId));
        },
    };
    let instance_type = match &instance.instance_type {
        Some(t) => t,
        None => {
            return Err(FetchError::MissingField(Field::InstanceType));
        },
    };
    let cpu = match &instance.cpu_options {
        Some(cpu) => cpu,
        None => {
            return Err(FetchError::MissingField(Field::CpuOptions));
        },
    };
    let state = match &instance.state {
        Some(state) => state,
        None => {
            return Err(FetchError::MissingField(Field::State));
        },
    };
    let state_name = match &state.name {
        Some(name) => name,
        None => {
            return Err(FetchError::MissingField(Field::StateName));
        },
    };
    let core_count = match cpu.core_count {
        Some(n) => n,
        None => {
            return Err(FetchError::MissingField(Field::CoreCount));
        },
    };
    let threads_per_core = match cpu.threads_per_core {
        Some(n) => n,
        None => {
            return Err(FetchError::MissingField(Field::ThreadsPerCore));
        },
    };
    let mut lines: Vec<String> = Vec::new();
    lines.push(String::from_str("Information: [EC2 Instance]"));
    lines.push(wrap("Instance name: [`", config.instance_name.as_str(), "`]"));
    lines.push(wrap("Instance id: [`", instance_id.as_str(), "`]"));
    lines.push(wrap("Instance type: [`", instance_type.as_str(), "`]"));
    lines.push(wrap("Cpu core count: [", i32_to_string(core_count).as_str(), "]"));
    lines.push(wrap("Cpu threads per core: [", i32_to_string(threads_per_core).as_str(), "]"));
    lines.push(wrap("State: [", state_name.as_str(), "]"));
    Ok(lines)
}

/// One block for each instance, in their order, or the first field that the
/// first incomplete instance lacks. No block carries a table.
pub fn describe_instances(config: &Ec2Config, instances: &Vec<Instance>) -> (r: Result<
    Vec<PromptData>,
    FetchError,
>)
    ensures
        (forall|i: int| 0 <= i < instances@.len() ==> missing_field(#[trigger] instances@[i])
            is None) ==> (r matches Ok(blocks) && describes(blocks@, *config, instances@)),
        forall|k: int|
            0 <= k < instances@.len() && missing_field(#[trigger] instances@[k]) is Some && (forall|
                i: int,
            |
                0 <= i < k ==> missing_field(#[trigger] instances@[i]) is None) ==> r == Err::<
                Vec<PromptData>,
                FetchError,
            >(FetchError::MissingField(missing_field(instances@[k])->0)),
{
    let mut blocks: Vec<PromptData> = Vec::new();
    let mut i: usize = 0;
    while i < instances.len()
        invariant
            i <= instances.len(),
            forall|j: int| 0 <= j < i ==> missing_field(#[trigger] instances@[j]) is None,
            describes(blocks@, *config, instances@.take(i as int)),
        decreases instances.len() - i,
    {
        match build_description(config, &instances[i]) {
            Ok(description) => {
                blocks.push(PromptData { description, data: None });
            },
            Err(e) => {
                return Err(e);
            },
        }
        i += 1;
    }
    Ok(blocks)
}

/// Looks up the instances whose `Name` tag is `ec2_instance_name`. Whatever
/// the service answers, a list that comes back is not empty.
pub fn fetch_instances<C: Ec2Client>(client: &C, ec2_instance_name: &String) -> (r: Result<
    Vec<Instance>,
    FetchError,
>)
    ensures
        r matches Ok(instances) ==> instances@.len() > 0,
        r matches Err(e) ==> e is Client || e == (FetchError::InstanceNotFound {
            name: *ec2_instance_name,
        }),
{
    let filter = build_filter(ec2_instance_name);
    instances_of(client.describe_instances(filter), ec2_instance_name)
}

/// Reads the instances that carry the configured name: one block for each.
/// Whatever the service answers, there is at least one block, the blocks are
/// the descriptions of some instances, seven lines each, and none carries a
/// table.
pub fn fetch_data<C: Ec2Client>(client: &C, config: &Ec2Config) -> (r: Result<
    Vec<PromptData>,
    FetchError,
>)
    ensures
        r matches Ok(blocks) ==> blocks@.len() > 0 && exists|instances: Seq<Instance>| #[trigger]
            describes(blocks@, *config, instances),
        r matches Ok(blocks) ==> forall|i: int|
            0 <= i < blocks@.len() ==> (#[trigger] blocks@[i]).description@.len() == 7
                && blocks@[i].data is None,
        r matches Err(e) ==> e is Client || e is MissingField || e == (
        FetchError::InstanceNotFound { name: config.instance_name }),
{
    match fetch_instances(client, &config.instance_name) {
        Ok(instances) => {
            let r = describe_instances(config, &instances);
            proof {
                lemma_first_incomplete(instances@);
                if r is Ok {
                    let blocks = r->Ok_0;
                    assert forall|i: int| 0 <= i < blocks@.len() implies (
                    #[trigger] blocks@[i]).description@.len() == 7 && blocks@[i].data
                        is None by {
                        assert(texts(blocks@[i].description@).len() == 7);
                    }
                }
            }
            r
        },
        Err(e) => Err(e),
    }
}

/// Among instances of which one is incomplete, one is the first such.
pub proof fn lemma_first_incomplete(instances: Seq<Instance>)
    ensures
        (forall|i: int| 0 <= i < instances.len() ==> missing_field(#[trigger] instances[i])
            is None) || exists|k: int|
            0 <= k < instances.len() && missing_field(#[trigger] instances[k]) is Some && (forall|
                i: int,
            |
                0 <= i < k ==> missing_field(#[trigger] instances[i]) is None),
    decreases instances.len(),
{
    if instances.len() > 0 {
        let front = instances.drop_last();
        lemma_first_incomplete(front);
        if forall|i: int| 0 <= i < front.len() ==> missing_field(#[trigger] front[i]) is None {
            assert forall|i: int| 0 <= i < front.len() implies missing_field(
                #[trigger] instances[i],
            ) is None by {
                assert(front[i] == instances[i]);
            }
        } else {
            let k = choose|k: int|
                0 <= k < front.len() && missing_field(#[trigger] front[k]) is Some && (forall|
                    i: int,
                |
                    0 <= i < k ==> missing_field(#[trigger] front[i]) is None);
            assert forall|i: int| 0 <= i < k implies missing_field(#[trigger] instances[i])
                is None by {
                assert(front[i] == instances[i]);
            }
        }
    }
}

} // verus!
