use winjet::app::main_screen::no_docker_service_screen::{
    ContainerRow, NoDockerServiceScreen, NoServiceView,
};
use winjet::app::main_screen::{MainScreen, MainView};
use winjet::app::setup_screen::SetupScreen;
use winjet::app::{App, AppMsg, AppScreen, AppTask, Job, ScreenView};
use winjet::container::{ContainerInspectResponse, ContainerSummary};
use winjet::controller::docker::{ContainerData, DockerController, DockerModule};
use winjet::controller::kvm::{KVMController, KVMModule};
use winjet::controller::state::{DockerServiceState, StateController, StateModule};
use winjet::controller::{Controller, Indicator, ModuleSlot};
use winjet::error::{Error, ErrorKind};
use winjet::ident::{RecordId, RecordKey};

fn container(name: &str, image: Option<&str>) -> ContainerData {
    ContainerData {
        summary: ContainerSummary {
            id: None,
            names: Some(vec![format!("/{name}")]),
            image: image.map(|image| image.to_string()),
            ports: None,
        },
        specs: ContainerInspectResponse { config: None, host_config: None },
    }
}

fn store_with(service: Option<DockerServiceState>, updating: bool, exists: bool) -> StateController {
    Controller {
        slot: ModuleSlot::Ready(StateModule {
            service,
            service_loading: false,
            service_updating: updating,
            service_exists_db: exists,
        }),
    }
}

fn runtime_with(containers: Vec<ContainerData>) -> DockerController {
    Controller { slot: ModuleSlot::Ready(DockerModule { containers }) }
}

fn service(name: &str) -> DockerServiceState {
    let id = RecordId::from_table_key("container", RecordKey::Number(1));
    let mut service = DockerServiceState::with_defaults(id, "/home/user");
    service.container_name = name.to_string();
    service
}

fn failure() -> Error {
    Error::new(ErrorKind::Connectivity, "unreachable".to_string())
}

#[test]
fn the_setup_screen_at_the_start() {
    let state: StateController = Controller::default();
    let docker: DockerController = Controller::default();
    let kvm: KVMController = Controller::default();
    let view = SetupScreen.view(&state, &docker, &kvm);
    assert_eq!(view.state.label, "State");
    assert_eq!(view.docker.label, "Docker");
    assert_eq!(view.kvm.label, "KVM");
    assert_eq!(view.state.indicator, Indicator::Danger);
    assert_eq!(view.docker.indicator, Indicator::Danger);
    assert_eq!(view.kvm.indicator, Indicator::Danger);
    assert_eq!(view.retry, Some(AppMsg::RetryInit));
    assert_eq!(view.next, None);
}

#[test]
fn the_setup_screen_offers_no_retry_while_a_module_loads() {
    let state = store_with(None, false, false);
    let docker: DockerController = Controller { slot: ModuleSlot::Loading };
    let kvm: KVMController = Controller { slot: ModuleSlot::Failed(failure()) };
    let view = SetupScreen.view(&state, &docker, &kvm);
    assert_eq!(view.state.indicator, Indicator::Success);
    assert_eq!(view.docker.indicator, Indicator::Spinner);
    assert_eq!(view.kvm.indicator, Indicator::Danger);
    assert_eq!(view.retry, None);
    assert_eq!(view.next, None);
}

#[test]
fn the_setup_screen_offers_a_retry_after_a_failure() {
    let state = store_with(None, false, false);
    let docker = runtime_with(Vec::new());
    let kvm: KVMController = Controller { slot: ModuleSlot::Failed(failure()) };
    let view = SetupScreen.view(&state, &docker, &kvm);
    assert_eq!(view.retry, Some(AppMsg::RetryInit));
    assert_eq!(view.next, None);
}

#[test]
fn the_setup_screen_can_be_left_once_every_module_is_ready() {
    let state = store_with(None, false, false);
    let docker = runtime_with(Vec::new());
    let kvm: KVMController = Controller { slot: ModuleSlot::Ready(KVMModule {}) };
    let view = SetupScreen.view(&state, &docker, &kvm);
    assert_eq!(view.retry, Some(AppMsg::RetryInit));
    assert_eq!(view.next, Some(AppMsg::DoneSetup));
    assert_eq!(view.kvm.indicator, Indicator::Success);
}

#[test]
fn without_a_record_the_main_screen_offers_the_containers() {
    let state = store_with(None, false, false);
    let docker = runtime_with(vec![container("one", Some("dockurr/windows")), container("two", None)]);
    let view = MainScreen.view(&state, &docker);
    assert_eq!(
        view,
        MainView::NoService(NoServiceView {
            rows: vec![
                ContainerRow {
                    name: "one".to_string(),
                    image: "dockurr/windows".to_string(),
                    selectable: true,
                },
                ContainerRow {
                    name: "two".to_string(),
                    image: "Unknown".to_string(),
                    selectable: true,
                },
            ],
        })
    );
}

#[test]
fn a_record_that_the_store_does_not_hold_shows_a_spinner() {
    let state = store_with(Some(service("win")), true, false);
    let docker = runtime_with(Vec::new());
    assert_eq!(MainScreen.view(&state, &docker), MainView::Committing);
}

#[test]
fn a_record_that_the_store_holds_is_alive() {
    let state = store_with(Some(service("win")), false, true);
    let docker = runtime_with(vec![container("one", None)]);
    assert_eq!(MainScreen.view(&state, &docker), MainView::Alive("win is ALIVE!".to_string()));
}

#[test]
fn containers_cannot_be_chosen_while_a_commit_is_under_way() {
    let state = store_with(None, true, false);
    let docker = runtime_with(vec![container("one", None)]);
    let view = NoDockerServiceScreen.view(&state, &docker);
    assert_eq!(view.rows.len(), 1);
    assert!(!view.rows[0].selectable);
    assert_eq!(NoDockerServiceScreen.select(&state, &docker, 0), None);
}

#[test]
fn choosing_a_line_asks_to_take_over_its_container() {
    let state = store_with(None, false, false);
    let docker = runtime_with(vec![container("one", None), container("two", Some("img"))]);
    assert_eq!(
        NoDockerServiceScreen.select(&state, &docker, 1),
        Some(AppMsg::CreateDockerServiceStateFromExisting(container("two", Some("img"))))
    );
    assert_eq!(
        NoDockerServiceScreen.select(&state, &docker, 0),
        Some(AppMsg::CreateDockerServiceStateFromExisting(container("one", None)))
    );
    assert_eq!(NoDockerServiceScreen.select(&state, &docker, 2), None);
}

#[test]
fn a_runtime_that_is_not_ready_lists_nothing() {
    let state = store_with(None, false, false);
    let docker: DockerController = Controller { slot: ModuleSlot::Failed(failure()) };
    assert_eq!(NoDockerServiceScreen.view(&state, &docker), NoServiceView { rows: Vec::new() });
    assert_eq!(NoDockerServiceScreen.select(&state, &docker, 0), None);
}

#[test]
fn the_app_shows_the_screen_it_is_on() {
    let (mut app, _) = App::new();
    match app.view() {
        ScreenView::Setup(view) => {
            assert_eq!(view.retry, Some(AppMsg::RetryInit));
            assert_eq!(view.next, None);
        }
        other => panic!("not the setup screen: {other:?}"),
    }
    app.update(AppMsg::InitStateRes(Ok(StateModule {
        service: None,
        service_loading: false,
        service_updating: false,
        service_exists_db: false,
    })));
    app.update(AppMsg::InitDockerRes(Ok(DockerModule { containers: vec![container("c", None)] })));
    app.update(AppMsg::DoneSetup);
    assert_eq!(app.screen, AppScreen::Main(MainScreen));
    match app.view() {
        ScreenView::Main(MainView::NoService(view)) => assert_eq!(view.rows.len(), 1),
        other => panic!("not the table of containers: {other:?}"),
    }
}

#[test]
fn taking_over_a_container_derives_the_record_and_commits_it() {
    let (mut app, _) = App::new();
    app.update(AppMsg::InitStateRes(Ok(StateModule {
        service: None,
        service_loading: false,
        service_updating: false,
        service_exists_db: false,
    })));
    let msg = AppMsg::CreateDockerServiceStateFromExisting(container("taken", Some("img")));
    assert!(app.accepts(&msg));
    assert_eq!(app.update(msg), AppTask::Done(AppMsg::UpdateDockerServiceState));
    let derived = match &app.state.slot {
        ModuleSlot::Ready(module) => module.service.clone().expect("a record was derived"),
        other => panic!("the store is not ready: {other:?}"),
    };
    assert_eq!(derived.container_name, "taken");
    assert_eq!(derived.image, "img");
    assert_eq!(derived.id.table, "container");
    assert!(matches!(derived.id.key, RecordKey::Uuid(_)));
    assert_eq!(derived.stop_grace_period, "2m");
    assert_eq!(
        app.update(AppMsg::UpdateDockerServiceState),
        AppTask::Perform(Job::CreateService(derived))
    );
}
