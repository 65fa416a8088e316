//! The service record and its reconciliation against the store.

use crate::app::{AppTask, Job};
use crate::container::{DeviceMapping, DeviceMappingView, Port, PortType, PortView, RestartPolicy};
use crate::controller::{Controller, ControllerModule};
use crate::copy::DeepClone;
use crate::error::Error;
use crate::ident::{RecordId, RecordIdView};
use crate::json::{empty_object, json_entries, json_string, no_entries, object_clone, object_insert, string_value};
use vstd::prelude::*;

verus! {

/// The lifecycle of the store module.
pub type StateController = Controller<StateModule>;

/// The table that holds the service record.
pub const SERVICE_TABLE: &'static str = "container";

/// The one record that describes the container to run.
#[derive(Debug, PartialEq)]
pub struct DockerServiceState {
    pub id: RecordId,
    pub image: String,
    pub container_name: String,
    pub environment: serde_json::Map<String, serde_json::Value>,
    pub devices: Vec<DeviceMapping>,
    pub cap_add: Vec<String>,
    pub ports: Vec<Port>,
    pub volumes: Vec<String>,
    pub restart: RestartPolicy,
    pub stop_grace_period: String,
}

/// The model of a service record.
pub struct ServiceView {
    pub id: RecordIdView,
    pub image: Seq<char>,
    pub container_name: Seq<char>,
    pub environment: Map<Seq<char>, serde_json::Value>,
    pub devices: Seq<DeviceMappingView>,
    pub cap_add: Seq<Seq<char>>,
    pub ports: Seq<PortView>,
    pub volumes: Seq<Seq<char>>,
    pub restart: RestartPolicy,
    pub stop_grace_period: Seq<char>,
}

impl DeepView for DockerServiceState {
    type V = ServiceView;

    open spec fn deep_view(&self) -> ServiceView {
        ServiceView {
            id: self.id.deep_view(),
            image: self.image@,
            container_name: self.container_name@,
            environment: json_entries(self.environment),
            devices: self.devices.deep_view(),
            cap_add: self.cap_add.deep_view(),
            ports: self.ports.deep_view(),
            volumes: self.volumes.deep_view(),
            restart: self.restart,
            stop_grace_period: self.stop_grace_period@,
        }
    }
}

impl DeepClone for DockerServiceState {
    fn deep_clone(&self) -> (copy: DockerServiceState) {
        DockerServiceState {
            id: self.id.deep_clone(),
            image: self.image.clone(),
            container_name: self.container_name.clone(),
            environment: object_clone(&self.environment),
            devices: self.devices.deep_clone(),
            cap_add: self.cap_add.deep_clone(),
            ports: self.ports.deep_clone(),
            volumes: self.volumes.deep_clone(),
            restart: self.restart,
            stop_grace_period: self.stop_grace_period.clone(),
        }
    }
}

impl Clone for DockerServiceState {
    fn clone(&self) -> (copy: DockerServiceState)
        ensures
            copy.deep_view() == self.deep_view(),
    {
        self.deep_clone()
    }
}

/// The device mapping that names one device of the host.
pub open spec fn host_device(path: Seq<char>) -> DeviceMappingView {
    DeviceMappingView { path_on_host: Some(path), path_in_container: None, cgroup_permissions: None }
}

/// The mapping that publishes a container port on the same port of the host.
pub open spec fn same_port(port: u16, typ: Option<PortType>) -> PortView {
    PortView { ip: None, private_port: port, public_port: Some(port), typ }
}

/// The record of a service that nothing has been said about, under the given
/// identifier and with its storage below the given home directory.
pub open spec fn default_service(id: RecordIdView, home: Seq<char>) -> ServiceView {
    ServiceView {
        id,
        image: "dockurr/windows"@,
        container_name: "windows"@,
        environment: no_entries().insert("VERSION"@, json_string("11"@)),
        devices: seq![host_device("/dev/kvm"@), host_device("/dev/net/tun"@)],
        cap_add: seq!["NET_ADMIN"@],
        ports: seq![
            same_port(8006, None),
            same_port(3389, Some(PortType::Tcp)),
            same_port(3389, Some(PortType::Udp)),
        ],
        volumes: seq![home + "/windows:/storage"@],
        restart: RestartPolicy::spec_always(),
        stop_grace_period: "2m"@,
    }
}

impl DockerServiceState {
    /// The record with every field at its default, under the given
    /// identifier. `home` is the home directory of the user, below which the
    /// storage of the service lies.
    pub fn with_defaults(id: RecordId, home: &str) -> (service: DockerServiceState)
        ensures
            service.deep_view() == default_service(id.deep_view(), home@),
            service.id == id,
    {
        let mut environment = empty_object();
        object_insert(&mut environment, "VERSION".to_owned(), string_value("11".to_owned()));
        let mut devices: Vec<DeviceMapping> = Vec::new();
        devices.push(DeviceMapping::on_host("/dev/kvm"));
        devices.push(DeviceMapping::on_host("/dev/net/tun"));
        let mut cap_add: Vec<String> = Vec::new();
        cap_add.push("NET_ADMIN".to_owned());
        let mut ports: Vec<Port> = Vec::new();
        ports.push(Port::published(8006, 8006, None));
        ports.push(Port::published(3389, 3389, Some(PortType::Tcp)));
        ports.push(Port::published(3389, 3389, Some(PortType::Udp)));
        let mut volumes: Vec<String> = Vec::new();
        volumes.push(home.to_owned().concat("/windows:/storage"));
        let service = DockerServiceState {
            id,
            image: "dockurr/windows".to_owned(),
            container_name: "windows".to_owned(),
            environment,
            devices,
            cap_add,
            ports,
            volumes,
            restart: RestartPolicy::always(),
            stop_grace_period: "2m".to_owned(),
        };
        proof {
            let wanted = default_service(id.deep_view(), home@);
            assert(service.devices.deep_view() =~= wanted.devices);
            assert(service.cap_add.deep_view() =~= wanted.cap_add);
            assert(service.ports.deep_view() =~= wanted.ports);
            assert(service.volumes.deep_view() =~= wanted.volumes);
        }
        service
    }

    /// A new record with every field at its default, under an identifier
    /// generated now.
    pub fn fresh(home: &str) -> (service: DockerServiceState)
        ensures
            service.deep_view() == default_service(service.id.deep_view(), home@),
            service.id.is_generated_in(SERVICE_TABLE@),
    {
        DockerServiceState::with_defaults(RecordId::generate(SERVICE_TABLE), home)
    }
}

/// The directory, below the local data directory of the application, that
/// holds the store.
pub const STORE_DIRECTORY: &'static str = "state";

/// The namespace of the store.
pub const STORE_NAMESPACE: &'static str = "winjet";

/// The database within the namespace.
pub const STORE_DATABASE: &'static str = "state";

/// The store module: the service record as far as it is known, and where
/// its reconciliation stands.
#[derive(Debug, PartialEq)]
pub struct StateModule {
    /// The service record: loaded, derived or created.
    pub service: Option<DockerServiceState>,
    /// A load of the record is under way.
    pub service_loading: bool,
    /// A commit of the record is under way.
    pub service_updating: bool,
    /// The store held the record when it last answered.
    pub service_exists_db: bool,
}

impl ControllerModule for StateModule {
    /// The outcome of opening the store.
    type Init = Result<(), Error>;

    open spec fn spec_name() -> Seq<char> {
        "State"@
    }

    fn name() -> (name: &'static str) {
        "State"
    }

    fn init_impl(input: Result<(), Error>) -> (module: Result<StateModule, Error>)
        ensures
            module == match input {
                Ok(_) => Ok::<StateModule, Error>(
                    StateModule {
                        service: None,
                        service_loading: false,
                        service_updating: false,
                        service_exists_db: false,
                    },
                ),
                Err(error) => Err(error),
            },
    {
        match input {
            Ok(_) => Ok(
                StateModule {
                    service: None,
                    service_loading: false,
                    service_updating: false,
                    service_exists_db: false,
                },
            ),
            Err(error) => Err(error),
        }
    }
}

/// Whether `job` writes `service` to the store in the way that `exists`
/// calls for: replacing the record of the same identifier where the store
/// holds the record, inserting a new record where it does not.
pub open spec fn is_commit(job: Job, service: ServiceView, exists: bool) -> bool {
    match job {
        Job::UpsertService(record) => exists && record.deep_view() == service,
        Job::CreateService(record) => !exists && record.deep_view() == service,
        _ => false,
    }
}

impl StateModule {
    /// Chooses how a record is written: replaced by its identifier where
    /// the store is known to hold it, inserted where it is not.
    pub fn commit(service: DockerServiceState, exists: bool) -> (job: Job)
        ensures
            exists ==> job == Job::UpsertService(service),
            !exists ==> job == Job::CreateService(service),
            is_commit(job, service.deep_view(), exists),
    {
        if exists {
            Job::UpsertService(service)
        } else {
            Job::CreateService(service)
        }
    }

    /// The module once a load of the record has started.
    pub open spec fn load_started(self) -> StateModule {
        StateModule { service_loading: true, ..self }
    }

    /// Starts a load of the service record.
    pub fn try_load_service(&mut self) -> (task: AppTask)
        ensures
            *final(self) == old(self).load_started(),
            task == AppTask::Perform(Job::LoadService),
    {
        self.service_loading = true;
        AppTask::Perform(Job::LoadService)
    }

    /// The module once the store has answered a load or a commit. Whatever
    /// the answer, neither is under way any more. An answer that is no
    /// failure becomes the record, and the store holds the record exactly if
    /// the answer carries one; a failure leaves both as they were.
    pub open spec fn answered(self, answer: Result<Option<DockerServiceState>, Error>) -> StateModule {
        match answer {
            Ok(record) => StateModule {
                service: record,
                service_loading: false,
                service_updating: false,
                service_exists_db: record is Some,
            },
            Err(_) => StateModule { service_loading: false, service_updating: false, ..self },
        }
    }

    /// Takes in the answer of the store to a load or a commit.
    pub fn check_set_service(&mut self, service: Result<Option<DockerServiceState>, Error>)
        ensures
            *final(self) == old(self).answered(service),
    {
        self.service_loading = false;
        self.service_updating = false;
        match service {
            Ok(record) => {
                self.service_exists_db = record.is_some();
                self.service = record;
            },
            Err(_) => {},
        }
    }

    /// Whether a commit can start: there is a record and no commit is under
    /// way.
    pub open spec fn can_commit(&self) -> bool {
        self.service is Some && !self.service_updating
    }

    /// The module once a commit of the record has started.
    pub open spec fn commit_started(self) -> StateModule {
        StateModule { service_updating: true, ..self }
    }

    /// Whether `task` runs the commit that the module calls for.
    pub open spec fn is_commit_task(self, task: AppTask) -> bool {
        task matches AppTask::Perform(job) && self.service matches Some(service) && is_commit(
            job,
            service.deep_view(),
            self.service_exists_db,
        )
    }

    /// Starts a commit of the service record. Without a record, or while a
    /// commit is under way, nothing is started and nothing changes.
    pub fn update_service_db(&mut self) -> (task: AppTask)
        ensures
            old(self).can_commit() ==> *final(self) == old(self).commit_started(),
            old(self).can_commit() ==> old(self).is_commit_task(task),
            !old(self).can_commit() ==> *final(self) == *old(self),
            !old(self).can_commit() ==> task == AppTask::Nothing,
    {
        if self.service_updating {
            return AppTask::Nothing;
        }
        match &self.service {
            Some(service) => {
                let job = StateModule::commit(service.deep_clone(), self.service_exists_db);
                self.service_updating = true;
                AppTask::Perform(job)
            },
            None => AppTask::Nothing,
        }
    }
}

/// A record that the store is not known to hold is inserted as a new one.
/// Once the store has answered that commit with the record it holds, the
/// next commit replaces the record of that identifier.
pub proof fn lemma_commit_routing(
    module: StateModule,
    stored: DockerServiceState,
    first: AppTask,
    second: AppTask,
)
    requires
        module.can_commit(),
        !module.service_exists_db,
        module.is_commit_task(first),
        module.commit_started().answered(Ok(Some(stored))).is_commit_task(second),
    ensures
        first matches AppTask::Perform(Job::CreateService(record)) && Some(record.deep_view())
            == module.service.deep_view(),
        second matches AppTask::Perform(Job::UpsertService(record)) && record.deep_view()
            == stored.deep_view(),
        module.commit_started().answered(Ok(Some(stored))).can_commit(),
{
}

/// What the store answers becomes the record, and the record is known to be
/// held exactly if the answer carries one; after any answer no load and no
/// commit is under way.
pub proof fn lemma_answer_is_kept(module: StateModule, answer: Result<Option<DockerServiceState>, Error>)
    ensures
        !module.answered(answer).service_loading,
        !module.answered(answer).service_updating,
        answer matches Ok(record) ==> module.answered(answer).service == record
            && module.answered(answer).service_exists_db == (record is Some),
        answer is Err ==> module.answered(answer).service == module.service && module.answered(
            answer,
        ).service_exists_db == module.service_exists_db,
{
}

} // verus!
