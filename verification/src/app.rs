//! The control loop: the messages it takes, the state it owns and the tasks
//! it hands out.

pub mod main_screen;
pub mod setup_screen;

use crate::app::main_screen::{is_main_view, MainScreen, MainView};
use crate::app::setup_screen::{SetupScreen, SetupView};
use crate::controller::docker::{
    derived_service, ContainerData, DockerContainerExt, DockerController, DockerModule,
};
use crate::controller::kvm::{KVMController, KVMModule};
use crate::controller::state::{DockerServiceState, StateController, StateModule, SERVICE_TABLE};
use crate::controller::{Controller, ModuleSlot};
use crate::error::Error;
use crate::ident::RecordId;
use vstd::prelude::*;

verus! {

/// A message to the control loop: a request of the user, a step that the
/// loop has set itself, or the outcome of outside work.
#[derive(Debug, PartialEq)]
pub enum AppMsg {
    InitState,
    InitStateRes(Result<StateModule, Error>),
    InitDocker,
    InitDockerRes(Result<DockerModule, Error>),
    InitKVM,
    InitKVMRes(Result<KVMModule, Error>),
    RetryInit,
    DoneSetup,
    LoadDockerServiceState,
    LoadDockerServiceStateRes(Result<Option<DockerServiceState>, Error>),
    CreateDockerServiceStateFromExisting(ContainerData),
    CreatedDockerServiceState(DockerServiceState),
    UpdateDockerServiceState,
}

/// Outside work that the control loop asks for. Each job ends in one
/// message that carries its outcome.
#[derive(Debug, PartialEq)]
pub enum Job {
    /// Open the store; answered by `InitStateRes`.
    InitState,
    /// List and inspect the managed containers; answered by `InitDockerRes`.
    InitDocker,
    /// Probe the hypervisor; answered by `InitKVMRes`.
    InitKVM,
    /// Read the service record; answered by `LoadDockerServiceStateRes`.
    LoadService,
    /// Insert the record as a new one; answered by
    /// `LoadDockerServiceStateRes`.
    CreateService(DockerServiceState),
    /// Replace the record that has the same identifier, or insert the record
    /// where there is none; answered by `LoadDockerServiceStateRes`.
    UpsertService(DockerServiceState),
}

/// What the control loop wants done after a message.
#[derive(Debug, PartialEq)]
pub enum AppTask {
    /// Nothing.
    Nothing,
    /// Deliver this message.
    Done(AppMsg),
    /// Deliver these messages.
    Batch(Vec<AppMsg>),
    /// Run this job off the loop and deliver the message it ends in.
    Perform(Job),
}

/// The screen that is shown.
#[derive(Clone, Copy, Debug, PartialEq, Eq, Structural)]
pub enum AppScreen {
    Setup(SetupScreen),
    Main(MainScreen),
}

/// What the screen that is shown holds.
#[derive(Debug, PartialEq)]
pub enum ScreenView {
    Setup(SetupView),
    Main(MainView),
}

/// The state that the control loop owns: the screen and the three modules.
#[derive(Debug, PartialEq)]
pub struct App {
    pub screen: AppScreen,
    pub state: StateController,
    pub docker: DockerController,
    pub kvm: KVMController,
}

/// The messages that start the initialisation of every module.
pub open spec fn init_messages() -> Seq<AppMsg> {
    seq![AppMsg::InitState, AppMsg::InitDocker, AppMsg::InitKVM]
}

/// The task of a request to initialise: the job, unless an initialisation
/// is under way already.
pub open spec fn load_task(loading: bool, job: Job) -> AppTask {
    if loading {
        AppTask::Nothing
    } else {
        AppTask::Perform(job)
    }
}

/// The task that follows the end of an initialisation: `on_success` where
/// it gave the module, nothing where it failed.
pub open spec fn loaded_task<Module>(res: Result<Module, Error>, on_success: AppTask) -> AppTask {
    if res is Ok {
        on_success
    } else {
        AppTask::Nothing
    }
}

/// Whether `task` delivers exactly `messages`: nothing where there are
/// none, else all of them in their order.
pub open spec fn delivers(task: AppTask, messages: Seq<AppMsg>) -> bool {
    if messages.len() == 0 {
        task == AppTask::Nothing
    } else {
        task matches AppTask::Batch(batch) && batch@ == messages
    }
}

impl AppScreen {
    /// Whether the screen can be shown: the main screen needs the store
    /// module.
    pub open spec fn can_show(self, state: &StateController) -> bool {
        self is Main ==> state.slot is Ready
    }

    /// Whether `view` is what the screen shows for the given modules.
    pub open spec fn shows(
        self,
        view: ScreenView,
        state: &StateController,
        docker: &DockerController,
        kvm: &KVMController,
    ) -> bool {
        match self {
            AppScreen::Setup(_) => view matches ScreenView::Setup(setup) && {
                &&& setup.state.label@ == "State"@
                &&& setup.state.indicator == state.indicator()
                &&& setup.docker.label@ == "Docker"@
                &&& setup.docker.indicator == docker.indicator()
                &&& setup.kvm.label@ == "KVM"@
                &&& setup.kvm.indicator == kvm.indicator()
                &&& setup.retry == if SetupScreen::can_retry(state, docker, kvm) {
                    Some(AppMsg::RetryInit)
                } else {
                    None
                }
                &&& setup.next == if SetupScreen::can_leave(state, docker, kvm) {
                    Some(AppMsg::DoneSetup)
                } else {
                    None
                }
            },
            AppScreen::Main(_) => view matches ScreenView::Main(main) && state.slot
                matches ModuleSlot::Ready(module) && is_main_view(main, module, state, docker),
        }
    }

    /// What the screen shows for the given modules.
    pub fn view(&self, state: &StateController, docker: &DockerController, kvm: &KVMController) -> (view:
        ScreenView)
        requires
            self.can_show(state),
        ensures
            self.shows(view, state, docker, kvm),
    {
        match self {
            AppScreen::Setup(setup_screen) => ScreenView::Setup(
                setup_screen.view(state, docker, kvm),
            ),
            AppScreen::Main(main_screen) => ScreenView::Main(main_screen.view(state, docker)),
        }
    }
}

impl App {
    /// The state at the start, and the task that starts the initialisation
    /// of every module.
    pub fn new() -> (start: (App, AppTask))
        ensures
            start.0.screen == AppScreen::Setup(SetupScreen),
            start.0.state.slot is Empty,
            start.0.docker.slot is Empty,
            start.0.kvm.slot is Empty,
            start.1 matches AppTask::Batch(batch) && batch@ == init_messages(),
    {
        let app = App {
            screen: AppScreen::Setup(SetupScreen),
            state: Controller::default(),
            docker: Controller::default(),
            kvm: Controller::default(),
        };
        let mut batch: Vec<AppMsg> = Vec::new();
        batch.push(AppMsg::InitState);
        batch.push(AppMsg::InitDocker);
        batch.push(AppMsg::InitKVM);
        assert(batch@ =~= init_messages());
        (app, AppTask::Batch(batch))
    }

    /// Whether the message needs the store module.
    pub open spec fn needs_store(msg: AppMsg) -> bool {
        match msg {
            AppMsg::CreateDockerServiceStateFromExisting(_) => true,
            AppMsg::CreatedDockerServiceState(_) => true,
            AppMsg::LoadDockerServiceState => true,
            AppMsg::LoadDockerServiceStateRes(_) => true,
            AppMsg::UpdateDockerServiceState => true,
            _ => false,
        }
    }

    /// Whether the message can be handled now: a message that needs the
    /// store module comes only while that module is ready.
    pub open spec fn spec_accepts(&self, msg: &AppMsg) -> bool {
        Self::needs_store(*msg) ==> self.state.slot is Ready
    }

    /// Whether the message can be handled now.
    #[verifier::when_used_as_spec(spec_accepts)]
    pub fn accepts(&self, msg: &AppMsg) -> (accepted: bool)
        ensures
            accepted == self.spec_accepts(msg),
    {
        let needs_store = match msg {
            AppMsg::CreateDockerServiceStateFromExisting(_) => true,
            AppMsg::CreatedDockerServiceState(_) => true,
            AppMsg::LoadDockerServiceState => true,
            AppMsg::LoadDockerServiceStateRes(_) => true,
            AppMsg::UpdateDockerServiceState => true,
            _ => false,
        };
        !needs_store || self.state.is_some()
    }

    /// The messages that a retry sends: one request to initialise for each
    /// module that is not ready, in the order store, runtime, hypervisor.
    pub open spec fn retry_messages(&self) -> Seq<AppMsg> {
        let state: Seq<AppMsg> = if self.state.spec_is_none() {
            seq![AppMsg::InitState]
        } else {
            seq![]
        };
        let docker: Seq<AppMsg> = if self.docker.spec_is_none() {
            seq![AppMsg::InitDocker]
        } else {
            seq![]
        };
        let kvm: Seq<AppMsg> = if self.kvm.spec_is_none() {
            seq![AppMsg::InitKVM]
        } else {
            seq![]
        };
        state + docker + kvm
    }

    /// The state with the store module replaced.
    pub open spec fn with_store(self, module: StateModule) -> App {
        App { state: Controller { slot: ModuleSlot::Ready(module) }, ..self }
    }

    /// Whether the store module has become `module` by taking over
    /// `container`: the record is the one derived from the container, under
    /// an identifier generated for it; the rest of the module is as before.
    pub open spec fn took_over(before: StateModule, container: ContainerData, module: StateModule) -> bool {
        &&& module.service matches Some(service) && {
            &&& service.id.is_generated_in(SERVICE_TABLE@)
            &&& service.deep_view() == derived_service(
                container.deep_view(),
                service.id.deep_view(),
            )
        }
        &&& module == StateModule { service: module.service, ..before }
    }

    /// The step of the control loop: whether the message takes the state
    /// `self` to the state `next` with `task` to be done.
    pub open spec fn steps_to(self, msg: AppMsg, next: App, task: AppTask) -> bool {
        match msg {
            AppMsg::InitState => {
                &&& next == App { state: self.state.load_requested(), ..self }
                &&& task == load_task(self.state.spec_loading(), Job::InitState)
            },
            AppMsg::InitStateRes(res) => {
                &&& next == App { state: self.state.load_ended(res), ..self }
                &&& task == loaded_task(res, AppTask::Done(AppMsg::LoadDockerServiceState))
            },
            AppMsg::InitDocker => {
                &&& next == App { docker: self.docker.load_requested(), ..self }
                &&& task == load_task(self.docker.spec_loading(), Job::InitDocker)
            },
            AppMsg::InitDockerRes(res) => {
                &&& next == App { docker: self.docker.load_ended(res), ..self }
                &&& task == AppTask::Nothing
            },
            AppMsg::InitKVM => {
                &&& next == App { kvm: self.kvm.load_requested(), ..self }
                &&& task == load_task(self.kvm.spec_loading(), Job::InitKVM)
            },
            AppMsg::InitKVMRes(res) => {
                &&& next == App { kvm: self.kvm.load_ended(res), ..self }
                &&& task == AppTask::Nothing
            },
            AppMsg::RetryInit => {
                &&& next == self
                &&& delivers(task, self.retry_messages())
            },
            AppMsg::DoneSetup => {
                &&& next == App { screen: AppScreen::Main(MainScreen), ..self }
                &&& task == AppTask::Nothing
            },
            AppMsg::CreateDockerServiceStateFromExisting(container) => {
                &&& self.state.slot matches ModuleSlot::Ready(before)
                &&& next.state.slot matches ModuleSlot::Ready(module)
                &&& Self::took_over(before, container, module)
                &&& next == self.with_store(module)
                &&& task == AppTask::Done(AppMsg::UpdateDockerServiceState)
            },
            AppMsg::CreatedDockerServiceState(service) => {
                &&& self.state.slot matches ModuleSlot::Ready(before)
                &&& next == self.with_store(StateModule { service: Some(service), ..before })
                &&& task == AppTask::Done(AppMsg::UpdateDockerServiceState)
            },
            AppMsg::LoadDockerServiceState => {
                &&& self.state.slot matches ModuleSlot::Ready(before)
                &&& next == self.with_store(before.load_started())
                &&& task == AppTask::Perform(Job::LoadService)
            },
            AppMsg::LoadDockerServiceStateRes(res) => {
                &&& self.state.slot matches ModuleSlot::Ready(before)
                &&& next == self.with_store(before.answered(res))
                &&& task == AppTask::Nothing
            },
            AppMsg::UpdateDockerServiceState => {
                &&& self.state.slot matches ModuleSlot::Ready(before)
                &&& if before.can_commit() {
                    &&& next == self.with_store(before.commit_started())
                    &&& before.is_commit_task(task)
                } else {
                    &&& next == self
                    &&& task == AppTask::Nothing
                }
            },
        }
    }

    /// Handles one message: changes the state and says what is to be done.
    pub fn update(&mut self, msg: AppMsg) -> (task: AppTask)
        requires
            old(self).spec_accepts(&msg),
        ensures
            old(self).steps_to(msg, *final(self), task),
    {
        match msg {
            AppMsg::InitState => self.state.load(Job::InitState),
            AppMsg::InitStateRes(res) => self.state.loaded(
                res,
                AppTask::Done(AppMsg::LoadDockerServiceState),
            ),
            AppMsg::InitDocker => self.docker.load(Job::InitDocker),
            AppMsg::InitDockerRes(res) => self.docker.loaded(res, AppTask::Nothing),
            AppMsg::InitKVM => self.kvm.load(Job::InitKVM),
            AppMsg::InitKVMRes(res) => self.kvm.loaded(res, AppTask::Nothing),
            AppMsg::RetryInit => {
                let mut batch: Vec<AppMsg> = Vec::new();
                if self.state.is_none() {
                    batch.push(AppMsg::InitState);
                }
                if self.docker.is_none() {
                    batch.push(AppMsg::InitDocker);
                }
                if self.kvm.is_none() {
                    batch.push(AppMsg::InitKVM);
                }
                assert(batch@ =~= self.retry_messages());
                if batch.len() > 0 {
                    AppTask::Batch(batch)
                } else {
                    AppTask::Nothing
                }
            },
            AppMsg::DoneSetup => {
                self.screen = AppScreen::Main(MainScreen);
                AppTask::Nothing
            },
            AppMsg::CreateDockerServiceStateFromExisting(container) => {
                match &mut self.state.slot {
                    ModuleSlot::Ready(module) => {
                        let id = RecordId::generate(SERVICE_TABLE);
                        module.service = Some(container.into_service(id));
                        AppTask::Done(AppMsg::UpdateDockerServiceState)
                    },
                    _ => AppTask::Nothing,
                }
            },
            AppMsg::CreatedDockerServiceState(service) => {
                match &mut self.state.slot {
                    ModuleSlot::Ready(module) => {
                        module.service = Some(service);
                        AppTask::Done(AppMsg::UpdateDockerServiceState)
                    },
                    _ => AppTask::Nothing,
                }
            },
            AppMsg::LoadDockerServiceState => {
                match &mut self.state.slot {
                    ModuleSlot::Ready(module) => module.try_load_service(),
                    _ => AppTask::Nothing,
                }
            },
            AppMsg::LoadDockerServiceStateRes(res) => {
                match &mut self.state.slot {
                    ModuleSlot::Ready(module) => {
                        module.check_set_service(res);
                        AppTask::Nothing
                    },
                    _ => AppTask::Nothing,
                }
            },
            AppMsg::UpdateDockerServiceState => {
                match &mut self.state.slot {
                    ModuleSlot::Ready(module) => module.update_service_db(),
                    _ => AppTask::Nothing,
                }
            },
        }
    }

    /// What is shown now.
    pub fn view(&self) -> (view: ScreenView)
        requires
            self.screen.can_show(&self.state),
        ensures
            self.screen.shows(view, &self.state, &self.docker, &self.kvm),
    {
        self.screen.view(&self.state, &self.docker, &self.kvm)
    }
}

/// A retry asks for each module that is not ready and for no module that is
/// ready.
pub proof fn lemma_retry_asks_for_unready_modules(app: App)
    ensures
        app.retry_messages().contains(AppMsg::InitState) <==> !(app.state.slot is Ready),
        app.retry_messages().contains(AppMsg::InitDocker) <==> !(app.docker.slot is Ready),
        app.retry_messages().contains(AppMsg::InitKVM) <==> !(app.kvm.slot is Ready),
{
    let messages = app.retry_messages();
    if !(app.state.slot is Ready) {
        assert(messages[0] == AppMsg::InitState);
    }
    if !(app.docker.slot is Ready) {
        let at = if app.state.slot is Ready {
            0int
        } else {
            1int
        };
        assert(messages[at] == AppMsg::InitDocker);
    }
    if !(app.kvm.slot is Ready) {
        assert(messages[messages.len() - 1] == AppMsg::InitKVM);
    }
}

/// With every module ready, a retry changes nothing and starts nothing.
pub proof fn lemma_retry_of_ready_modules_is_idle(app: App, next: App, task: AppTask)
    requires
        app.state.slot is Ready,
        app.docker.slot is Ready,
        app.kvm.slot is Ready,
        app.steps_to(AppMsg::RetryInit, next, task),
    ensures
        next == app,
        task == AppTask::Nothing,
{
    assert(app.retry_messages() =~= Seq::empty());
}

/// A request to initialise a module that is being initialised changes
/// nothing and starts nothing.
pub proof fn lemma_repeated_init_is_ignored(app: App, next: App, task: AppTask)
    ensures
        app.state.slot is Loading && app.steps_to(AppMsg::InitState, next, task) ==> next == app
            && task == AppTask::Nothing,
        app.docker.slot is Loading && app.steps_to(AppMsg::InitDocker, next, task) ==> next == app
            && task == AppTask::Nothing,
        app.kvm.slot is Loading && app.steps_to(AppMsg::InitKVM, next, task) ==> next == app
            && task == AppTask::Nothing,
{
}

/// No step touches a module that the message is not about: a message about
/// the store leaves the runtime and the hypervisor as they are, and so on.
/// A message about the service record leaves the store module ready.
pub proof fn lemma_step_keeps_other_modules(app: App, msg: AppMsg, next: App, task: AppTask)
    requires
        app.steps_to(msg, next, task),
    ensures
        !(msg is InitState || msg is InitStateRes || App::needs_store(msg)) ==> next.state
            == app.state,
        App::needs_store(msg) ==> next.state.slot is Ready,
        !(msg is InitDocker || msg is InitDockerRes) ==> next.docker == app.docker,
        !(msg is InitKVM || msg is InitKVMRes) ==> next.kvm == app.kvm,
        !(msg is DoneSetup) ==> next.screen == app.screen,
{
}

} // verus!
