use winjet::container::{ContainerInspectResponse, ContainerSummary};
use winjet::controller::docker::{
    ContainerData, ContainerSummaryExt, DockerContainerExt, DockerModule,
};
use winjet::controller::ControllerModule;
use winjet::error::{Error, ErrorKind};

fn summary(name: &str) -> ContainerSummary {
    ContainerSummary {
        id: Some(format!("id-{name}")),
        names: Some(vec![format!("/{name}")]),
        image: Some("dockurr/windows".to_string()),
        ports: None,
    }
}

fn bare() -> ContainerInspectResponse {
    ContainerInspectResponse { config: None, host_config: None }
}

fn record(name: &str) -> ContainerData {
    ContainerData { summary: summary(name), specs: bare() }
}

fn inspect_error(name: &str) -> Error {
    Error::new(ErrorKind::Inspect, format!("no such container: {name}"))
}

#[test]
fn a_failed_inspection_drops_only_its_container() {
    let outcomes = vec![
        DockerModule::inspection(summary("A"), Ok(bare())),
        DockerModule::inspection(summary("B"), Err(inspect_error("B"))),
    ];
    let module = DockerModule::init_impl(Ok(outcomes)).expect("the listing succeeded");
    assert_eq!(module.containers, vec![record("A")]);
}

#[test]
fn the_result_holds_one_record_per_successful_inspection() {
    for total in 0..6usize {
        for failed in 0..=total {
            let outcomes: Vec<Result<ContainerData, Error>> = (0..total)
                .map(|i| {
                    let name = format!("c{i}");
                    if i < failed {
                        Err(inspect_error(&name))
                    } else {
                        Ok(record(&name))
                    }
                })
                .collect();
            let module = DockerModule::init_impl(Ok(outcomes)).expect("the listing succeeded");
            assert_eq!(module.containers.len(), total - failed);
        }
    }
}

#[test]
fn records_keep_the_order_of_the_outcomes() {
    let outcomes = vec![
        Ok(record("c")),
        Err(inspect_error("x")),
        Ok(record("a")),
        Ok(record("b")),
        Err(inspect_error("y")),
    ];
    let module = DockerModule::init_impl(Ok(outcomes)).expect("the listing succeeded");
    assert_eq!(module.containers, vec![record("c"), record("a"), record("b")]);
}

#[test]
fn an_empty_listing_is_no_error() {
    let module = DockerModule::init_impl(Ok(Vec::new())).expect("the listing succeeded");
    assert!(module.containers.is_empty());
}

#[test]
fn every_inspection_failing_is_no_error() {
    let outcomes = vec![Err(inspect_error("a")), Err(inspect_error("b"))];
    let module = DockerModule::init_impl(Ok(outcomes)).expect("the listing succeeded");
    assert!(module.containers.is_empty());
}

#[test]
fn a_failed_listing_fails_the_initialisation() {
    let error = Error::new(ErrorKind::Enumeration, "permission denied".to_string());
    assert_eq!(DockerModule::init_impl(Err(error.clone())), Err(error));
}

#[test]
fn inspection_joins_summary_and_details() {
    assert_eq!(DockerModule::inspection(summary("A"), Ok(bare())), Ok(record("A")));
    assert_eq!(
        DockerModule::inspection(summary("A"), Err(inspect_error("A"))),
        Err(inspect_error("A"))
    );
}

#[test]
fn the_discovery_query_asks_for_all_containers_of_the_managed_image() {
    let query = DockerModule::discovery_query();
    assert!(query.all);
    assert_eq!(query.limit, None);
    assert!(!query.size);
    let filters = query.filters.expect("the listing is filtered");
    assert_eq!(filters.len(), 1);
    assert_eq!(filters.get("ancestor"), Some(&vec!["dockurr/windows".to_string()]));
}

#[test]
fn module_names() {
    assert_eq!(DockerModule::name(), "Docker");
    assert_eq!(winjet::controller::state::StateModule::name(), "State");
    assert_eq!(winjet::controller::kvm::KVMModule::name(), "KVM");
}

#[test]
fn the_name_of_a_summary_is_its_first_name_without_leading_slashes() {
    assert_eq!(ContainerSummaryExt::name(&summary("windows")), "windows");
    let mut several = summary("first");
    several.names = Some(vec!["//first".to_string(), "/second".to_string()]);
    assert_eq!(ContainerSummaryExt::name(&several), "first");
    let mut inner = summary("x");
    inner.names = Some(vec!["a/b".to_string()]);
    assert_eq!(ContainerSummaryExt::name(&inner), "a/b");
}

#[test]
fn a_summary_without_names_is_unknown() {
    let mut nameless = summary("x");
    nameless.names = None;
    assert_eq!(ContainerSummaryExt::name(&nameless), "Unknown");
    nameless.names = Some(Vec::new());
    assert_eq!(ContainerSummaryExt::name(&nameless), "Unknown");
}

#[test]
fn a_container_without_image_is_unknown() {
    let mut container = record("x");
    assert_eq!(container.image(), "dockurr/windows");
    container.summary.image = None;
    assert_eq!(container.image(), "Unknown");
    assert_eq!(DockerContainerExt::name(&container), "x");
}
