//! The screen shown while there is no service record: the managed
//! containers that were found, any of which can be taken over.

use crate::app::AppMsg;
use crate::controller::docker::{
    summary_image, summary_name, ContainerData, ContainerDataView, DockerContainerExt,
    DockerController,
};
use crate::controller::state::StateController;
use crate::controller::ModuleSlot;
use crate::copy::DeepClone;
use vstd::prelude::*;

verus! {

/// The screen that offers the containers that were found.
#[derive(Clone, Copy, Debug, PartialEq, Eq, Structural)]
pub struct NoDockerServiceScreen;

/// One line of the table of containers.
#[derive(Debug, PartialEq, Eq)]
pub struct ContainerRow {
    pub name: String,
    pub image: String,
    /// Whether the container can be taken over now.
    pub selectable: bool,
}

/// The model of a line of the table.
pub struct ContainerRowView {
    pub name: Seq<char>,
    pub image: Seq<char>,
    pub selectable: bool,
}

impl DeepView for ContainerRow {
    type V = ContainerRowView;

    open spec fn deep_view(&self) -> ContainerRowView {
        ContainerRowView { name: self.name@, image: self.image@, selectable: self.selectable }
    }
}

/// What the screen shows: the table of containers, in the order in which
/// the module keeps them.
#[derive(Debug, PartialEq, Eq)]
pub struct NoServiceView {
    pub rows: Vec<ContainerRow>,
}

/// The containers that the runtime module keeps; none while it is not ready.
pub open spec fn listed(docker: &DockerController) -> Seq<ContainerData> {
    match docker.slot {
        ModuleSlot::Ready(module) => module.containers@,
        _ => Seq::empty(),
    }
}

/// Whether a commit of the service record is under way.
pub open spec fn updating(state: &StateController) -> bool {
    state.slot matches ModuleSlot::Ready(module) && module.service_updating
}

/// The line that shows a container.
pub open spec fn row_of(container: ContainerDataView, selectable: bool) -> ContainerRowView {
    ContainerRowView {
        name: summary_name(container.summary),
        image: summary_image(container.summary),
        selectable,
    }
}

/// The table that shows the given containers.
pub open spec fn rows_of(containers: Seq<ContainerData>, selectable: bool) -> Seq<ContainerRowView> {
    Seq::new(containers.len(), |i: int| row_of(containers[i].deep_view(), selectable))
}

/// Whether `msg` is the request to take over `container`.
pub open spec fn takes_over(msg: Option<AppMsg>, container: ContainerDataView) -> bool {
    msg matches Some(AppMsg::CreateDockerServiceStateFromExisting(chosen)) && chosen.deep_view()
        == container
}

impl NoDockerServiceScreen {
    /// What the screen shows. A container can be taken over unless a commit
    /// is under way.
    pub fn view(&self, state: &StateController, docker: &DockerController) -> (view: NoServiceView)
        requires
            state.slot is Ready,
        ensures
            view.rows.deep_view() == rows_of(listed(docker), !updating(state)),
    {
        let selectable = match &state.slot {
            ModuleSlot::Ready(module) => !module.service_updating,
            _ => false,
        };
        let mut rows: Vec<ContainerRow> = Vec::new();
        match &docker.slot {
            ModuleSlot::Ready(module) => {
                let mut i: usize = 0;
                while i < module.containers.len()
                    invariant
                        i <= module.containers.len(),
                        rows.len() == i,
                        forall|j: int|
                            0 <= j < i ==> rows@[j].deep_view() == row_of(
                                #[trigger] module.containers@[j].deep_view(),
                                selectable,
                            ),
                    decreases module.containers.len() - i,
                {
                    let container = &module.containers[i];
                    rows.push(
                        ContainerRow {
                            name: container.name(),
                            image: container.image(),
                            selectable,
                        },
                    );
                    i += 1;
                }
            },
            _ => {},
        }
        assert(rows.deep_view() =~= rows_of(listed(docker), !updating(state)));
        NoServiceView { rows }
    }

    /// What choosing the line at `index` sends: the request to take over
    /// that container. Nothing is sent while a commit is under way, or where
    /// there is no such line.
    pub fn select(&self, state: &StateController, docker: &DockerController, index: usize) -> (msg:
        Option<AppMsg>)
        requires
            state.slot is Ready,
        ensures
            !updating(state) && index < listed(docker).len() ==> takes_over(
                msg,
                listed(docker)[index as int].deep_view(),
            ),
            updating(state) || index >= listed(docker).len() ==> msg is None,
    {
        let selectable = match &state.slot {
            ModuleSlot::Ready(module) => !module.service_updating,
            _ => false,
        };
        if !selectable {
            return None;
        }
        match &docker.slot {
            ModuleSlot::Ready(module) => {
                if index < module.containers.len() {
                    Some(
                        AppMsg::CreateDockerServiceStateFromExisting(
                            module.containers[index].deep_clone(),
                        ),
                    )
                } else {
                    None
                }
            },
            _ => None,
        }
    }
}

} // verus!
