//! What the container runtime reports about a container: the summary that a
//! listing gives and the details that an inspection adds.

use crate::copy::DeepClone;
use vstd::prelude::*;

verus! {

/// A device of the host made available inside the container.
#[derive(Debug, PartialEq, Eq)]
pub struct DeviceMapping {
    pub path_on_host: Option<String>,
    pub path_in_container: Option<String>,
    pub cgroup_permissions: Option<String>,
}

/// The model of a device mapping.
pub struct DeviceMappingView {
    pub path_on_host: Option<Seq<char>>,
    pub path_in_container: Option<Seq<char>>,
    pub cgroup_permissions: Option<Seq<char>>,
}

impl DeepView for DeviceMapping {
    type V = DeviceMappingView;

    open spec fn deep_view(&self) -> DeviceMappingView {
        DeviceMappingView {
            path_on_host: self.path_on_host.deep_view(),
            path_in_container: self.path_in_container.deep_view(),
            cgroup_permissions: self.cgroup_permissions.deep_view(),
        }
    }
}

impl DeepClone for DeviceMapping {
    fn deep_clone(&self) -> (copy: DeviceMapping) {
        DeviceMapping {
            path_on_host: self.path_on_host.deep_clone(),
            path_in_container: self.path_in_container.deep_clone(),
            cgroup_permissions: self.cgroup_permissions.deep_clone(),
        }
    }
}

impl Clone for DeviceMapping {
    fn clone(&self) -> (copy: DeviceMapping)
        ensures
            copy.deep_view() == self.deep_view(),
    {
        self.deep_clone()
    }
}

impl DeviceMapping {
    /// The mapping that names a device of the host and nothing else.
    pub fn on_host(path: &str) -> (device: DeviceMapping)
        ensures
            device.deep_view() == (DeviceMappingView {
                path_on_host: Some(path@),
                path_in_container: None,
                cgroup_permissions: None,
            }),
    {
        DeviceMapping {
            path_on_host: Some(path.to_owned()),
            path_in_container: None,
            cgroup_permissions: None,
        }
    }
}

/// The transport of a port mapping.
#[derive(Clone, Copy, Debug, PartialEq, Eq, Structural)]
pub enum PortType {
    Empty,
    Tcp,
    Udp,
    Sctp,
}

/// A port of the container and the port of the host it is published on.
#[derive(Debug, PartialEq, Eq)]
pub struct Port {
    pub ip: Option<String>,
    pub private_port: u16,
    pub public_port: Option<u16>,
    pub typ: Option<PortType>,
}

/// The model of a port mapping.
pub struct PortView {
    pub ip: Option<Seq<char>>,
    pub private_port: u16,
    pub public_port: Option<u16>,
    pub typ: Option<PortType>,
}

impl DeepView for Port {
    type V = PortView;

    open spec fn deep_view(&self) -> PortView {
        PortView {
            ip: self.ip.deep_view(),
            private_port: self.private_port,
            public_port: self.public_port,
            typ: self.typ,
        }
    }
}

impl DeepClone for Port {
    fn deep_clone(&self) -> (copy: Port) {
        Port {
            ip: self.ip.deep_clone(),
            private_port: self.private_port,
            public_port: self.public_port,
            typ: self.typ,
        }
    }
}

impl Clone for Port {
    fn clone(&self) -> (copy: Port)
        ensures
            copy.deep_view() == self.deep_view(),
    {
        self.deep_clone()
    }
}

impl Port {
    /// The mapping of a container port to the same or another port of the
    /// host, on every address.
    pub fn published(private_port: u16, public_port: u16, typ: Option<PortType>) -> (port: Port)
        ensures
            port.deep_view() == (PortView {
                ip: None,
                private_port,
                public_port: Some(public_port),
                typ,
            }),
    {
        Port { ip: None, private_port, public_port: Some(public_port), typ }
    }
}

/// When the runtime restarts a container that has stopped.
#[derive(Clone, Copy, Debug, PartialEq, Eq, Structural)]
pub enum RestartPolicyName {
    Empty,
    No,
    Always,
    UnlessStopped,
    OnFailure,
}

/// A restart rule with the number of retries it allows, where it counts them.
#[derive(Clone, Copy, Debug, PartialEq, Eq, Structural)]
pub struct RestartPolicy {
    pub name: Option<RestartPolicyName>,
    pub maximum_retry_count: Option<i64>,
}

impl RestartPolicy {
    /// The rule that always restarts.
    pub open spec fn spec_always() -> RestartPolicy {
        RestartPolicy { name: Some(RestartPolicyName::Always), maximum_retry_count: None }
    }

    /// The rule that always restarts.
    #[verifier::when_used_as_spec(spec_always)]
    pub fn always() -> (policy: RestartPolicy)
        ensures
            policy == Self::spec_always(),
    {
        RestartPolicy { name: Some(RestartPolicyName::Always), maximum_retry_count: None }
    }
}

/// What a listing tells of one container.
#[derive(Debug, PartialEq, Eq)]
pub struct ContainerSummary {
    /// The identifier that the runtime gave the container.
    pub id: Option<String>,
    /// The names of the container, each with the slash the runtime puts first.
    pub names: Option<Vec<String>>,
    pub image: Option<String>,
    pub ports: Option<Vec<Port>>,
}

/// The model of a summary.
pub struct ContainerSummaryView {
    pub id: Option<Seq<char>>,
    pub names: Option<Seq<Seq<char>>>,
    pub image: Option<Seq<char>>,
    pub ports: Option<Seq<PortView>>,
}

impl DeepView for ContainerSummary {
    type V = ContainerSummaryView;

    open spec fn deep_view(&self) -> ContainerSummaryView {
        ContainerSummaryView {
            id: self.id.deep_view(),
            names: self.names.deep_view(),
            image: self.image.deep_view(),
            ports: self.ports.deep_view(),
        }
    }
}

impl DeepClone for ContainerSummary {
    fn deep_clone(&self) -> (copy: ContainerSummary) {
        ContainerSummary {
            id: self.id.deep_clone(),
            names: self.names.deep_clone(),
            image: self.image.deep_clone(),
            ports: self.ports.deep_clone(),
        }
    }
}

impl Clone for ContainerSummary {
    fn clone(&self) -> (copy: ContainerSummary)
        ensures
            copy.deep_view() == self.deep_view(),
    {
        self.deep_clone()
    }
}

/// The part of a container's configuration that a service record is made of.
#[derive(Debug, PartialEq, Eq)]
pub struct ContainerConfig {
    /// The environment, one `KEY=VALUE` text per variable.
    pub env: Option<Vec<String>>,
    /// The paths inside the container that are volumes.
    pub volumes: Option<Vec<String>>,
}

/// The model of a container's configuration.
pub struct ContainerConfigView {
    pub env: Option<Seq<Seq<char>>>,
    pub volumes: Option<Seq<Seq<char>>>,
}

impl DeepView for ContainerConfig {
    type V = ContainerConfigView;

    open spec fn deep_view(&self) -> ContainerConfigView {
        ContainerConfigView { env: self.env.deep_view(), volumes: self.volumes.deep_view() }
    }
}

impl DeepClone for ContainerConfig {
    fn deep_clone(&self) -> (copy: ContainerConfig) {
        ContainerConfig { env: self.env.deep_clone(), volumes: self.volumes.deep_clone() }
    }
}

impl Clone for ContainerConfig {
    fn clone(&self) -> (copy: ContainerConfig)
        ensures
            copy.deep_view() == self.deep_view(),
    {
        self.deep_clone()
    }
}

/// The part of a container's host settings that a service record is made of.
#[derive(Debug, PartialEq, Eq)]
pub struct HostConfig {
    pub devices: Option<Vec<DeviceMapping>>,
    pub cap_add: Option<Vec<String>>,
    pub restart_policy: Option<RestartPolicy>,
}

/// The model of a container's host settings.
pub struct HostConfigView {
    pub devices: Option<Seq<DeviceMappingView>>,
    pub cap_add: Option<Seq<Seq<char>>>,
    pub restart_policy: Option<RestartPolicy>,
}

impl DeepView for HostConfig {
    type V = HostConfigView;

    open spec fn deep_view(&self) -> HostConfigView {
        HostConfigView {
            devices: self.devices.deep_view(),
            cap_add: self.cap_add.deep_view(),
            restart_policy: self.restart_policy,
        }
    }
}

impl DeepClone for HostConfig {
    fn deep_clone(&self) -> (copy: HostConfig) {
        HostConfig {
            devices: self.devices.deep_clone(),
            cap_add: self.cap_add.deep_clone(),
            restart_policy: self.restart_policy,
        }
    }
}

impl Clone for HostConfig {
    fn clone(&self) -> (copy: HostConfig)
        ensures
            copy.deep_view() == self.deep_view(),
    {
        self.deep_clone()
    }
}

/// What an inspection tells of one container.
#[derive(Debug, PartialEq, Eq)]
pub struct ContainerInspectResponse {
    pub config: Option<ContainerConfig>,
    pub host_config: Option<HostConfig>,
}

/// The model of an inspection.
pub struct ContainerInspectView {
    pub config: Option<ContainerConfigView>,
    pub host_config: Option<HostConfigView>,
}

impl DeepView for ContainerInspectResponse {
    type V = ContainerInspectView;

    open spec fn deep_view(&self) -> ContainerInspectView {
        ContainerInspectView {
            config: self.config.deep_view(),
            host_config: self.host_config.deep_view(),
        }
    }
}

impl DeepClone for ContainerInspectResponse {
    fn deep_clone(&self) -> (copy: ContainerInspectResponse) {
        ContainerInspectResponse {
            config: self.config.deep_clone(),
            host_config: self.host_config.deep_clone(),
        }
    }
}

impl Clone for ContainerInspectResponse {
    fn clone(&self) -> (copy: ContainerInspectResponse)
        ensures
            copy.deep_view() == self.deep_view(),
    {
        self.deep_clone()
    }
}

} // verus!
