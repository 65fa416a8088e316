//! The container runtime module: which containers it looks for, what it
//! keeps of them, and what a service record takes over from one of them.

use crate::container::{
    ContainerInspectResponse, ContainerInspectView, ContainerSummary, ContainerSummaryView,
    DeviceMapping, DeviceMappingView, Port, PortView, RestartPolicy,
};
use crate::controller::state::{DockerServiceState, ServiceView};
use crate::controller::{Controller, ControllerModule};
use crate::copy::DeepClone;
use crate::env::{env_of, parse_env};
use crate::error::Error;
use crate::ident::{RecordId, RecordIdView};
use crate::json::{empty_object, no_entries};
use crate::text::{trim_leading_slashes, without_leading_slashes};
use vstd::prelude::*;

verus! {

/// The lifecycle of the container runtime module.
pub type DockerController = Controller<DockerModule>;

/// The image that every managed container descends from.
pub const MANAGED_IMAGE: &'static str = "dockurr/windows";

/// The filter of a listing that selects containers by the image they
/// descend from.
pub const ANCESTOR_FILTER: &'static str = "ancestor";

/// bollard's `ListContainersOptions`, with the public fields it has.
#[verifier::external_type_specification]
pub struct ExListContainersOptions(bollard::query_parameters::ListContainersOptions);

/// The filters of a listing that has exactly one: `key` with the one value
/// `value`.
pub open spec fn one_filter(key: Seq<char>, value: Seq<char>) -> Map<Seq<char>, Seq<Seq<char>>> {
    Map::empty().insert(key, seq![value])
}

/// Calls `new`, `all`, `filters` and `build` of bollard's
/// `ListContainersOptionsBuilder`. Trusted: the options list stopped
/// containers as `all` says, carry the one filter given, and are otherwise
/// those of the builder's start: no limit, no sizes.
#[verifier::external_body]
fn list_options(all: bool, key: &str, value: &str) -> (options:
    bollard::query_parameters::ListContainersOptions)
    ensures
        options.all == all,
        options.limit is None,
        !options.size,
        options.filters.deep_view() == Some(one_filter(key@, value@)),
{
    bollard::query_parameters::ListContainersOptionsBuilder::new()
        .all(all)
        .filters(&std::collections::HashMap::from([(key, vec![value])]))
        .build()
}

/// The name of a listed container: its first name without the slashes the
/// runtime puts first, or `Unknown` where it has none.
pub open spec fn summary_name(summary: ContainerSummaryView) -> Seq<char> {
    match summary.names {
        Some(names) if names.len() > 0 => without_leading_slashes(names[0]),
        _ => "Unknown"@,
    }
}

/// The image of a listed container, or `Unknown` where none is given.
pub open spec fn summary_image(summary: ContainerSummaryView) -> Seq<char> {
    match summary.image {
        Some(image) => image,
        None => "Unknown"@,
    }
}

/// A container summary can be asked for the name of its container.
pub trait ContainerSummaryExt {
    /// The name of the container.
    spec fn spec_name(&self) -> Seq<char>;

    /// The name of the container.
    fn name(&self) -> (name: String)
        ensures
            name@ == self.spec_name(),
    ;
}

impl ContainerSummaryExt for ContainerSummary {
    open spec fn spec_name(&self) -> Seq<char> {
        summary_name(self.deep_view())
    }

    fn name(&self) -> (name: String) {
        match &self.names {
            Some(names) => {
                if names.len() > 0 {
                    trim_leading_slashes(names[0].as_str())
                } else {
                    "Unknown".to_owned()
                }
            },
            None => "Unknown".to_owned(),
        }
    }
}

/// A container as the runtime knows it: what the listing said of it and
/// what its inspection added.
#[derive(Debug, PartialEq, Eq)]
pub struct ContainerData {
    pub summary: ContainerSummary,
    pub specs: ContainerInspectResponse,
}

/// The model of a container.
pub struct ContainerDataView {
    pub summary: ContainerSummaryView,
    pub specs: ContainerInspectView,
}

impl DeepView for ContainerData {
    type V = ContainerDataView;

    open spec fn deep_view(&self) -> ContainerDataView {
        ContainerDataView { summary: self.summary.deep_view(), specs: self.specs.deep_view() }
    }
}

impl DeepClone for ContainerData {
    fn deep_clone(&self) -> (copy: ContainerData) {
        ContainerData { summary: self.summary.deep_clone(), specs: self.specs.deep_clone() }
    }
}

impl Clone for ContainerData {
    fn clone(&self) -> (copy: ContainerData)
        ensures
            copy.deep_view() == self.deep_view(),
    {
        self.deep_clone()
    }
}

/// The environment of a container, read from its entries.
pub open spec fn container_env(container: ContainerDataView) -> Map<Seq<char>, serde_json::Value> {
    match container.specs.config {
        Some(config) => match config.env {
            Some(entries) => env_of(entries),
            None => no_entries(),
        },
        None => no_entries(),
    }
}

/// The devices of the host that a container was given.
pub open spec fn container_devices(container: ContainerDataView) -> Seq<DeviceMappingView> {
    match container.specs.host_config {
        Some(host) => match host.devices {
            Some(devices) => devices,
            None => Seq::empty(),
        },
        None => Seq::empty(),
    }
}

/// The capabilities that a container was given beyond the usual ones.
pub open spec fn container_cap_add(container: ContainerDataView) -> Seq<Seq<char>> {
    match container.specs.host_config {
        Some(host) => match host.cap_add {
            Some(capabilities) => capabilities,
            None => Seq::empty(),
        },
        None => Seq::empty(),
    }
}

/// The ports that a container publishes.
pub open spec fn container_ports(container: ContainerDataView) -> Seq<PortView> {
    match container.summary.ports {
        Some(ports) => ports,
        None => Seq::empty(),
    }
}

/// The volumes of a container.
pub open spec fn container_volumes(container: ContainerDataView) -> Seq<Seq<char>> {
    match container.specs.config {
        Some(config) => match config.volumes {
            Some(volumes) => volumes,
            None => Seq::empty(),
        },
        None => Seq::empty(),
    }
}

/// The restart rule of a container; the rule that always restarts where the
/// runtime reports none.
pub open spec fn container_restart(container: ContainerDataView) -> RestartPolicy {
    match container.specs.host_config {
        Some(host) => match host.restart_policy {
            Some(policy) => policy,
            None => RestartPolicy::spec_always(),
        },
        None => RestartPolicy::spec_always(),
    }
}

/// The service record that takes over a container: image, name,
/// environment, devices, capabilities, ports, volumes and restart rule are
/// the container's; the rest is as in a record by default.
pub open spec fn derived_service(container: ContainerDataView, id: RecordIdView) -> ServiceView {
    ServiceView {
        id,
        image: summary_image(container.summary),
        container_name: summary_name(container.summary),
        environment: container_env(container),
        devices: container_devices(container),
        cap_add: container_cap_add(container),
        ports: container_ports(container),
        volumes: container_volumes(container),
        restart: container_restart(container),
        stop_grace_period: "2m"@,
    }
}

/// What a service record reads off a container.
pub trait DockerContainerExt: Sized {
    /// The container that the value stands for.
    spec fn container(&self) -> ContainerDataView;

    fn name(&self) -> (name: String)
        ensures
            name@ == summary_name(self.container().summary),
    ;

    fn image(&self) -> (image: String)
        ensures
            image@ == summary_image(self.container().summary),
    ;

    fn env(&self) -> (env: serde_json::Map<String, serde_json::Value>)
        ensures
            crate::json::json_entries(env) == container_env(self.container()),
    ;

    fn devices(&self) -> (devices: Vec<DeviceMapping>)
        ensures
            devices.deep_view() == container_devices(self.container()),
    ;

    fn cap_add(&self) -> (capabilities: Vec<String>)
        ensures
            capabilities.deep_view() == container_cap_add(self.container()),
    ;

    fn ports(&self) -> (ports: Vec<Port>)
        ensures
            ports.deep_view() == container_ports(self.container()),
    ;

    fn volumes(&self) -> (volumes: Vec<String>)
        ensures
            volumes.deep_view() == container_volumes(self.container()),
    ;

    fn restart(&self) -> (policy: RestartPolicy)
        ensures
            policy == container_restart(self.container()),
    ;

    /// The service record that takes over the container, under the given
    /// identifier.
    fn into_service(self, id: RecordId) -> (service: DockerServiceState)
        ensures
            service.deep_view() == derived_service(self.container(), id.deep_view()),
            service.id == id,
    ;
}

impl DockerContainerExt for ContainerData {
    open spec fn container(&self) -> ContainerDataView {
        self.deep_view()
    }

    fn name(&self) -> (name: String) {
        ContainerSummaryExt::name(&self.summary)
    }

    fn image(&self) -> (image: String) {
        match &self.summary.image {
            Some(image) => image.clone(),
            None => "Unknown".to_owned(),
        }
    }

    fn env(&self) -> (env: serde_json::Map<String, serde_json::Value>) {
        match &self.specs.config {
            Some(config) => match &config.env {
                Some(entries) => parse_env(entries),
                None => empty_object(),
            },
            None => empty_object(),
        }
    }

    fn devices(&self) -> (devices: Vec<DeviceMapping>) {
        match &self.specs.host_config {
            Some(host) => match &host.devices {
                Some(devices) => devices.deep_clone(),
                None => empty_list(),
            },
            None => empty_list(),
        }
    }

    fn cap_add(&self) -> (capabilities: Vec<String>) {
        match &self.specs.host_config {
            Some(host) => match &host.cap_add {
                Some(capabilities) => capabilities.deep_clone(),
                None => empty_list(),
            },
            None => empty_list(),
        }
    }

    fn ports(&self) -> (ports: Vec<Port>) {
        match &self.summary.ports {
            Some(ports) => ports.deep_clone(),
            None => empty_list(),
        }
    }

    fn volumes(&self) -> (volumes: Vec<String>) {
        match &self.specs.config {
            Some(config) => match &config.volumes {
                Some(volumes) => volumes.deep_clone(),
                None => empty_list(),
            },
            None => empty_list(),
        }
    }

    fn restart(&self) -> (policy: RestartPolicy) {
        match &self.specs.host_config {
            Some(host) => match host.restart_policy {
                Some(policy) => policy,
                None => RestartPolicy::always(),
            },
            None => RestartPolicy::always(),
        }
    }

    fn into_service(self, id: RecordId) -> (service: DockerServiceState) {
        DockerServiceState {
            id,
            image: self.image(),
            container_name: DockerContainerExt::name(&self),
            environment: self.env(),
            devices: self.devices(),
            cap_add: self.cap_add(),
            ports: self.ports(),
            volumes: self.volumes(),
            restart: self.restart(),
            stop_grace_period: "2m".to_owned(),
        }
    }
}

/// A list without items, with the model of one.
fn empty_list<T: DeepView>() -> (list: Vec<T>)
    ensures
        list.deep_view() == Seq::<T::V>::empty(),
{
    let list: Vec<T> = Vec::new();
    assert(list.deep_view() =~= Seq::<T::V>::empty());
    list
}

/// The containers whose inspection succeeded, in the order of the outcomes.
pub open spec fn inspected(outcomes: Seq<Result<ContainerData, Error>>) -> Seq<ContainerData>
    decreases outcomes.len(),
{
    if outcomes.len() == 0 {
        Seq::empty()
    } else {
        let before = inspected(outcomes.drop_last());
        match outcomes.last() {
            Ok(container) => before.push(container),
            Err(_) => before,
        }
    }
}

/// The number of outcomes that are failures.
pub open spec fn failures(outcomes: Seq<Result<ContainerData, Error>>) -> nat
    decreases outcomes.len(),
{
    if outcomes.len() == 0 {
        0
    } else {
        failures(outcomes.drop_last()) + if outcomes.last() is Err {
            1nat
        } else {
            0nat
        }
    }
}

/// Of the listed containers, those whose inspection failed are missing from
/// the result and no others: what is kept and what failed add up to what
/// was listed.
pub proof fn lemma_inspected_count(outcomes: Seq<Result<ContainerData, Error>>)
    ensures
        inspected(outcomes).len() == outcomes.len() - failures(outcomes),
        failures(outcomes) <= outcomes.len(),
    decreases outcomes.len(),
{
    if outcomes.len() > 0 {
        lemma_inspected_count(outcomes.drop_last());
    }
}

/// The container runtime, once its containers have been listed and
/// inspected.
#[derive(Debug, PartialEq, Eq)]
pub struct DockerModule {
    /// The managed containers that could be inspected.
    pub containers: Vec<ContainerData>,
}

impl DockerModule {
    /// The listing that finds the managed containers: every container,
    /// running or not, that descends from the managed image.
    pub fn discovery_query() -> (query: bollard::query_parameters::ListContainersOptions)
        ensures
            query.all,
            query.limit is None,
            !query.size,
            query.filters.deep_view() == Some(one_filter(ANCESTOR_FILTER@, MANAGED_IMAGE@)),
    {
        list_options(true, ANCESTOR_FILTER, MANAGED_IMAGE)
    }

    /// Joins the summary of a listed container with the outcome of its
    /// inspection.
    pub fn inspection(summary: ContainerSummary, specs: Result<ContainerInspectResponse, Error>) -> (outcome:
        Result<ContainerData, Error>)
        ensures
            outcome == match specs {
                Ok(specs) => Ok::<ContainerData, Error>(ContainerData { summary, specs }),
                Err(error) => Err(error),
            },
    {
        match specs {
            Ok(specs) => Ok(ContainerData { summary, specs }),
            Err(error) => Err(error),
        }
    }
}

impl ControllerModule for DockerModule {
    /// The outcome of the listing and, where it succeeded, the outcome of
    /// the inspection of each listed container, in the order in which the
    /// inspections ended.
    type Init = Result<Vec<Result<ContainerData, Error>>, Error>;

    open spec fn spec_name() -> Seq<char> {
        "Docker"@
    }

    fn name() -> (name: &'static str) {
        "Docker"
    }

    /// A failed listing fails the initialisation. A failed inspection only
    /// leaves its container out.
    fn init_impl(input: Result<Vec<Result<ContainerData, Error>>, Error>) -> (module: Result<
        DockerModule,
        Error,
    >)
        ensures
            match input {
                Ok(outcomes) => module matches Ok(docker) && docker.containers@ == inspected(
                    outcomes@,
                ) && docker.containers@.len() == outcomes@.len() - failures(outcomes@),
                Err(error) => module == Err::<DockerModule, Error>(error),
            },
    {
        match input {
            Ok(outcomes) => {
                let ghost all = outcomes@;
                let mut containers: Vec<ContainerData> = Vec::new();
                assert(all.take(0) =~= Seq::empty());
                for outcome in iter: outcomes.into_iter()
                    invariant
                        iter.seq() == all,
                        containers@ == inspected(all.take(iter.index() as int)),
                {
                    proof {
                        let i = iter.index() as int;
                        assert(all.take(i + 1).drop_last() =~= all.take(i));
                        assert(all.take(i + 1).last() == outcome);
                    }
                    match outcome {
                        Ok(container) => {
                            containers.push(container);
                        },
                        Err(_) => {},
                    }
                }
                proof {
                    assert(all.take(all.len() as int) =~= all);
                    lemma_inspected_count(all);
                }
                Ok(DockerModule { containers })
            },
            Err(error) => Err(error),
        }
    }
}

} // verus!
