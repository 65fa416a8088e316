use serde_json::Value;
use winjet::container::{
    ContainerConfig, ContainerInspectResponse, ContainerSummary, DeviceMapping, HostConfig, Port,
    PortType, RestartPolicy, RestartPolicyName,
};
use winjet::controller::docker::{ContainerData, DockerContainerExt};
use winjet::controller::state::{DockerServiceState, SERVICE_TABLE};
use winjet::ident::{RecordId, RecordKey};

fn device(path: &str) -> DeviceMapping {
    DeviceMapping {
        path_on_host: Some(path.to_string()),
        path_in_container: None,
        cgroup_permissions: None,
    }
}

fn port(number: u16, typ: Option<PortType>) -> Port {
    Port { ip: None, private_port: number, public_port: Some(number), typ }
}

fn some_id() -> RecordId {
    RecordId::from_table_key("container", RecordKey::Uuid(0x0190_0000_0000_7000_8000_0000_0000_0001))
}

fn full_container() -> ContainerData {
    ContainerData {
        summary: ContainerSummary {
            id: Some("4fa6e0f0c678".to_string()),
            names: Some(vec!["/win11".to_string()]),
            image: Some("dockurr/windows:latest".to_string()),
            ports: Some(vec![Port {
                ip: Some("0.0.0.0".to_string()),
                private_port: 8006,
                public_port: Some(8080),
                typ: Some(PortType::Tcp),
            }]),
        },
        specs: ContainerInspectResponse {
            config: Some(ContainerConfig {
                env: Some(vec![
                    "VERSION=\"10\"".to_string(),
                    "PATH=/usr/bin".to_string(),
                    "RAM_SIZE=8".to_string(),
                ]),
                volumes: Some(vec!["/storage".to_string()]),
            }),
            host_config: Some(HostConfig {
                devices: Some(vec![DeviceMapping {
                    path_on_host: Some("/dev/kvm".to_string()),
                    path_in_container: Some("/dev/kvm".to_string()),
                    cgroup_permissions: Some("rwm".to_string()),
                }]),
                cap_add: Some(vec!["NET_ADMIN".to_string(), "SYS_ADMIN".to_string()]),
                restart_policy: Some(RestartPolicy {
                    name: Some(RestartPolicyName::OnFailure),
                    maximum_retry_count: Some(3),
                }),
            }),
        },
    }
}

#[test]
fn a_record_by_default_matches_the_default_table() {
    let service = DockerServiceState::with_defaults(some_id(), "/home/user");
    assert_eq!(service.id, some_id());
    assert_eq!(service.image, "dockurr/windows");
    assert_eq!(service.container_name, "windows");
    assert_eq!(service.environment.len(), 1);
    assert_eq!(service.environment.get("VERSION"), Some(&Value::String("11".to_string())));
    assert_eq!(service.devices, vec![device("/dev/kvm"), device("/dev/net/tun")]);
    assert_eq!(service.cap_add, vec!["NET_ADMIN".to_string()]);
    assert_eq!(
        service.ports,
        vec![
            port(8006, None),
            port(3389, Some(PortType::Tcp)),
            port(3389, Some(PortType::Udp)),
        ]
    );
    assert_eq!(service.volumes, vec!["/home/user/windows:/storage".to_string()]);
    assert_eq!(
        service.restart,
        RestartPolicy { name: Some(RestartPolicyName::Always), maximum_retry_count: None }
    );
    assert_eq!(service.stop_grace_period, "2m");
}

#[test]
fn the_storage_lies_below_the_given_home() {
    let service = DockerServiceState::with_defaults(some_id(), "");
    assert_eq!(service.volumes, vec!["/windows:/storage".to_string()]);
    let service = DockerServiceState::with_defaults(some_id(), "/root");
    assert_eq!(service.volumes, vec!["/root/windows:/storage".to_string()]);
}

#[test]
fn a_fresh_record_has_the_defaults_under_a_generated_identifier() {
    let service = DockerServiceState::fresh("/home/user");
    assert_eq!(service.id.table, "container");
    assert!(matches!(service.id.key, RecordKey::Uuid(_)));
    let expected = DockerServiceState::with_defaults(service.id.clone(), "/home/user");
    assert_eq!(service, expected);
}

#[test]
fn generated_identifiers_are_version_seven_and_differ() {
    let first = RecordId::generate(SERVICE_TABLE);
    let second = RecordId::generate(SERVICE_TABLE);
    assert_eq!(first.table, "container");
    assert_ne!(first, second);
    for id in [first, second] {
        match id.key {
            RecordKey::Uuid(value) => {
                assert_eq!((value >> 76) & 0xf, 7);
                assert_eq!((value >> 62) & 0x3, 2);
                assert_eq!(uuid::Uuid::from_u128(value).get_version_num(), 7);
            }
            other => panic!("not a uuid: {other:?}"),
        }
    }
}

#[test]
fn generated_identifiers_are_ordered_by_time() {
    let first = RecordId::generate("t");
    let second = RecordId::generate("t");
    match (first.key, second.key) {
        (RecordKey::Uuid(a), RecordKey::Uuid(b)) => assert!(a < b),
        _ => panic!("not uuids"),
    }
}

#[test]
fn from_table_key_keeps_table_and_key() {
    let id = RecordId::from_table_key("things", RecordKey::Text("one".to_string()));
    assert_eq!(id.table, "things");
    assert_eq!(id.key, RecordKey::Text("one".to_string()));
    let id = RecordId::from_table_key("things", RecordKey::Number(-4));
    assert_eq!(id.key, RecordKey::Number(-4));
}

#[test]
fn a_derived_record_copies_what_the_container_has() {
    let service = full_container().into_service(some_id());
    assert_eq!(service.id, some_id());
    assert_eq!(service.image, "dockurr/windows:latest");
    assert_eq!(service.container_name, "win11");
    assert_eq!(service.environment.len(), 2);
    assert_eq!(service.environment.get("VERSION"), Some(&Value::String("10".to_string())));
    assert_eq!(service.environment.get("RAM_SIZE"), Some(&Value::from(8)));
    assert_eq!(
        service.devices,
        vec![DeviceMapping {
            path_on_host: Some("/dev/kvm".to_string()),
            path_in_container: Some("/dev/kvm".to_string()),
            cgroup_permissions: Some("rwm".to_string()),
        }]
    );
    assert_eq!(service.cap_add, vec!["NET_ADMIN".to_string(), "SYS_ADMIN".to_string()]);
    assert_eq!(
        service.ports,
        vec![Port {
            ip: Some("0.0.0.0".to_string()),
            private_port: 8006,
            public_port: Some(8080),
            typ: Some(PortType::Tcp),
        }]
    );
    assert_eq!(service.volumes, vec!["/storage".to_string()]);
    assert_eq!(
        service.restart,
        RestartPolicy { name: Some(RestartPolicyName::OnFailure), maximum_retry_count: Some(3) }
    );
    assert_eq!(service.stop_grace_period, "2m");
}

#[test]
fn a_record_derived_from_a_bare_container_falls_back() {
    let container = ContainerData {
        summary: ContainerSummary { id: None, names: None, image: None, ports: None },
        specs: ContainerInspectResponse { config: None, host_config: None },
    };
    let service = container.into_service(some_id());
    assert_eq!(service.image, "Unknown");
    assert_eq!(service.container_name, "Unknown");
    assert!(service.environment.is_empty());
    assert!(service.devices.is_empty());
    assert!(service.cap_add.is_empty());
    assert!(service.ports.is_empty());
    assert!(service.volumes.is_empty());
    assert_eq!(service.restart, RestartPolicy::always());
    assert_eq!(service.stop_grace_period, "2m");
}

#[test]
fn a_record_derived_from_empty_sections_falls_back() {
    let container = ContainerData {
        summary: ContainerSummary { id: None, names: Some(vec![]), image: None, ports: None },
        specs: ContainerInspectResponse {
            config: Some(ContainerConfig { env: None, volumes: None }),
            host_config: Some(HostConfig { devices: None, cap_add: None, restart_policy: None }),
        },
    };
    assert!(container.env().is_empty());
    assert!(container.devices().is_empty());
    assert!(container.cap_add().is_empty());
    assert!(container.ports().is_empty());
    assert!(container.volumes().is_empty());
    assert_eq!(
        container.restart(),
        RestartPolicy { name: Some(RestartPolicyName::Always), maximum_retry_count: None }
    );
}

#[test]
fn the_parts_of_a_container_agree_with_its_record() {
    let container = full_container();
    let service = container.clone().into_service(some_id());
    assert_eq!(container.image(), service.image);
    assert_eq!(DockerContainerExt::name(&container), service.container_name);
    assert_eq!(container.env(), service.environment);
    assert_eq!(container.devices(), service.devices);
    assert_eq!(container.cap_add(), service.cap_add);
    assert_eq!(container.ports(), service.ports);
    assert_eq!(container.volumes(), service.volumes);
    assert_eq!(container.restart(), service.restart);
}

#[test]
fn clones_are_equal_to_their_source() {
    let container = full_container();
    assert_eq!(container.clone(), container);
    let service = container.into_service(some_id());
    assert_eq!(service.clone(), service);
    let defaults = DockerServiceState::with_defaults(some_id(), "/home/user");
    assert_eq!(defaults.clone(), defaults);
    assert_ne!(defaults, service);
}
