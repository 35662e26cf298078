use auto_diagnostic::config::Ec2Config;
use auto_diagnostic::datasource::ec2::{
    build_description, build_filter, collect_instances, describe_instances, fetch_data,
    fetch_instances, has_instances, instances_of, CpuOptions, DescribeInstancesOutput, Ec2Client,
    Filter, Instance, InstanceState, Reservation,
};
use auto_diagnostic::error::{ClientError, FetchError, Field};
use std::cell::RefCell;

fn instance(id: &str) -> Instance {
    Instance {
        instance_id: Some(id.to_string()),
        instance_type: Some("t3a.medium".to_string()),
        cpu_options: Some(CpuOptions { core_count: Some(1), threads_per_core: Some(2) }),
        state: Some(InstanceState { name: Some("running".to_string()) }),
    }
}

struct MockEc2Client {
    instance_id: String,
    filters: RefCell<Vec<(String, Vec<String>)>>,
}

impl Ec2Client for MockEc2Client {
    fn describe_instances(&self, filter: Filter) -> Result<DescribeInstancesOutput, ClientError> {
        self.filters.borrow_mut().push((filter.name, filter.values));
        Ok(DescribeInstancesOutput {
            reservations: vec![Reservation { instances: vec![instance(&self.instance_id)] }],
        })
    }
}

struct NoInstanceEc2Client {}

impl Ec2Client for NoInstanceEc2Client {
    fn describe_instances(&self, _: Filter) -> Result<DescribeInstancesOutput, ClientError> {
        Ok(DescribeInstancesOutput { reservations: vec![Reservation { instances: Vec::new() }] })
    }
}

struct BrokenEc2Client {}

impl Ec2Client for BrokenEc2Client {
    fn describe_instances(&self, _: Filter) -> Result<DescribeInstancesOutput, ClientError> {
        Err(ClientError { message: "access denied".to_string() })
    }
}

#[test]
fn ec2_test_fetch_data() {
    let client =
        MockEc2Client { instance_id: "ec2-instance-id".to_string(), filters: RefCell::new(vec![]) };
    let config = Ec2Config { order_no: 1, instance_name: "ec2-instance-name".to_string() };

    let blocks = fetch_data(&client, &config).expect("Should be able to fetch data");
    assert_eq!(blocks.len(), 1);
    for prompt_data in blocks {
        assert_eq!(prompt_data.description.len(), 7);
        assert_eq!(prompt_data.description[0], "Information: [EC2 Instance]".to_string());
        assert_eq!(prompt_data.description[1], "Instance name: [`ec2-instance-name`]".to_string());
        assert_eq!(prompt_data.description[2], "Instance id: [`ec2-instance-id`]".to_string());
        assert_eq!(prompt_data.description[3], "Instance type: [`t3a.medium`]".to_string());
        assert_eq!(prompt_data.description[4], "Cpu core count: [1]".to_string());
        assert_eq!(prompt_data.description[5], "Cpu threads per core: [2]".to_string());
        assert_eq!(prompt_data.description[6], "State: [running]".to_string());
        assert!(prompt_data.data.is_none());
    }
    assert_eq!(
        *client.filters.borrow(),
        vec![("tag:Name".to_string(), vec!["ec2-instance-name".to_string()])]
    );
}

#[test]
#[should_panic(expected = "Unable to find instance with name: not-found-instance-name")]
fn test_fetch_instances_not_found() {
    let client = NoInstanceEc2Client {};
    let instance_name = String::from("not-found-instance-name");

    fetch_instances(&client, &instance_name).map_err(|e| e.message()).unwrap();
}

#[test]
fn the_filter_selects_by_name_tag() {
    let filter = build_filter(&"web".to_string());
    assert_eq!(filter.name, "tag:Name");
    assert_eq!(filter.values, vec!["web"]);
}

#[test]
fn an_answer_without_instances_names_the_instance() {
    let none = DescribeInstancesOutput { reservations: Vec::new() };
    assert!(!has_instances(&none));
    match instances_of(Ok(none), &"web".to_string()) {
        Err(FetchError::InstanceNotFound { name }) => assert_eq!(name, "web"),
        other => panic!("unexpected: {:?}", other),
    }
    let empty = DescribeInstancesOutput {
        reservations: vec![
            Reservation { instances: Vec::new() },
            Reservation { instances: Vec::new() },
        ],
    };
    assert!(!has_instances(&empty));
    match instances_of(Ok(empty), &"web".to_string()) {
        Err(FetchError::InstanceNotFound { name }) => assert_eq!(name, "web"),
        other => panic!("unexpected: {:?}", other),
    }
}

#[test]
fn every_instance_of_the_answer_is_found_in_order() {
    let output = DescribeInstancesOutput {
        reservations: vec![
            Reservation { instances: vec![instance("i-1"), instance("i-2")] },
            Reservation { instances: Vec::new() },
            Reservation { instances: vec![instance("i-3")] },
        ],
    };

    assert!(has_instances(&output));
    let instances = collect_instances(output);
    let ids: Vec<String> = instances.iter().map(|i| i.instance_id.clone().unwrap()).collect();
    assert_eq!(ids, vec!["i-1", "i-2", "i-3"]);

    let config = Ec2Config { order_no: 1, instance_name: "web".to_string() };
    let blocks = describe_instances(&config, &instances).expect("blocks");
    assert_eq!(blocks.len(), 3);
    assert_eq!(blocks[0].description[2], "Instance id: [`i-1`]");
    assert_eq!(blocks[1].description[2], "Instance id: [`i-2`]");
    assert_eq!(blocks[2].description[2], "Instance id: [`i-3`]");
    assert!(blocks.iter().all(|b| b.data.is_none() && b.description.len() == 7));
}

#[test]
fn an_answer_comes_to_its_instances_or_an_error() {
    let output = DescribeInstancesOutput {
        reservations: vec![
            Reservation { instances: Vec::new() },
            Reservation { instances: vec![instance("i-1")] },
            Reservation { instances: vec![instance("i-2"), instance("i-3")] },
        ],
    };
    let instances = instances_of(Ok(output), &"web".to_string()).expect("instances");
    let ids: Vec<String> = instances.iter().map(|i| i.instance_id.clone().unwrap()).collect();
    assert_eq!(ids, vec!["i-1", "i-2", "i-3"]);

    match instances_of(Err(ClientError { message: "access denied".to_string() }), &"web".to_string())
    {
        Err(FetchError::Client(e)) => assert_eq!(e.message, "access denied"),
        other => panic!("unexpected: {:?}", other),
    }
}

#[test]
fn counts_print_with_their_sign() {
    let config = Ec2Config { order_no: 1, instance_name: "web".to_string() };
    let mut odd = instance("i-1");
    odd.cpu_options = Some(CpuOptions { core_count: Some(-3), threads_per_core: Some(128) });
    let lines = build_description(&config, &odd).expect("complete");
    assert_eq!(lines[4], "Cpu core count: [-3]");
    assert_eq!(lines[5], "Cpu threads per core: [128]");
}

#[test]
fn the_first_missing_field_is_reported() {
    let config = Ec2Config { order_no: 1, instance_name: "web".to_string() };
    let cases: Vec<(Instance, Field)> = vec![
        (Instance { instance_id: None, ..instance("i") }, Field::InstanceId),
        (Instance { instance_type: None, ..instance("i") }, Field::InstanceType),
        (Instance { cpu_options: None, ..instance("i") }, Field::CpuOptions),
        (Instance { state: None, ..instance("i") }, Field::State),
        (Instance { state: Some(InstanceState { name: None }), ..instance("i") }, Field::StateName),
        (
            Instance {
                cpu_options: Some(CpuOptions { core_count: None, threads_per_core: Some(2) }),
                ..instance("i")
            },
            Field::CoreCount,
        ),
        (
            Instance {
                cpu_options: Some(CpuOptions { core_count: Some(1), threads_per_core: None }),
                ..instance("i")
            },
            Field::ThreadsPerCore,
        ),
        (
            Instance {
                instance_type: None,
                cpu_options: Some(CpuOptions { core_count: None, threads_per_core: None }),
                state: None,
                ..instance("i")
            },
            Field::InstanceType,
        ),
        (
            Instance {
                cpu_options: Some(CpuOptions { core_count: None, threads_per_core: None }),
                state: Some(InstanceState { name: None }),
                ..instance("i")
            },
            Field::StateName,
        ),
    ];
    for (incomplete, field) in cases {
        match build_description(&config, &incomplete) {
            Err(FetchError::MissingField(f)) => assert_eq!(f, field),
            other => panic!("unexpected: {:?}", other),
        }
    }
    let instances =
        vec![instance("i-1"), Instance { state: None, ..instance("i-2") }, Instance {
            instance_id: None,
            ..instance("i-3")
        }];
    match describe_instances(&config, &instances) {
        Err(FetchError::MissingField(f)) => assert_eq!(f, Field::State),
        other => panic!("unexpected: {:?}", other),
    }
}

#[test]
fn a_failing_compute_service_ends_the_reading() {
    let config = Ec2Config { order_no: 1, instance_name: "web".to_string() };
    match fetch_data(&BrokenEc2Client {}, &config) {
        Err(FetchError::Client(e)) => assert_eq!(e.message, "access denied"),
        other => panic!("unexpected: {:?}", other),
    }
    match fetch_data(&NoInstanceEc2Client {}, &config) {
        Err(FetchError::InstanceNotFound { name }) => assert_eq!(name, "web"),
        other => panic!("unexpected: {:?}", other),
    }
}
