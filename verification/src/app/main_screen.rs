//! The screen shown once the modules are set up.

pub mod no_docker_service_screen;

use crate::app::main_screen::no_docker_service_screen::{
    listed, rows_of, updating, NoDockerServiceScreen, NoServiceView,
};
use crate::controller::docker::DockerController;
use crate::controller::state::{StateController, StateModule};
use crate::controller::ModuleSlot;
use vstd::prelude::*;

verus! {

/// The main screen.
#[derive(Clone, Copy, Debug, PartialEq, Eq, Structural)]
pub struct MainScreen;

/// What the main screen shows.
#[derive(Debug, PartialEq, Eq)]
pub enum MainView {
    /// There is no service record: the containers that can be taken over.
    NoService(NoServiceView),
    /// There is a record that the store does not hold yet: a spinner.
    Committing,
    /// The store holds the record: this line.
    Alive(String),
}

/// The line shown for a service that the store holds.
pub open spec fn alive_line(container_name: Seq<char>) -> Seq<char> {
    container_name + " is ALIVE!"@
}

/// Whether `view` is what the main screen shows for the given store module
/// and runtime controller.
pub open spec fn is_main_view(
    view: MainView,
    module: StateModule,
    state: &StateController,
    docker: &DockerController,
) -> bool {
    match module.service {
        None => view matches MainView::NoService(table) && table.rows.deep_view() == rows_of(
            listed(docker),
            !updating(state),
        ),
        Some(service) => if module.service_exists_db {
            view matches MainView::Alive(line) && line@ == alive_line(service.container_name@)
        } else {
            view == MainView::Committing
        },
    }
}

impl MainScreen {
    /// What the main screen shows. The store module must be ready.
    pub fn view(&self, state: &StateController, docker: &DockerController) -> (view: MainView)
        requires
            state.slot is Ready,
        ensures
            state.slot matches ModuleSlot::Ready(module) && is_main_view(
                view,
                module,
                state,
                docker,
            ),
    {
        match &state.slot {
            ModuleSlot::Ready(module) => {
                match &module.service {
                    None => MainView::NoService(NoDockerServiceScreen.view(state, docker)),
                    Some(service) => {
                        if !module.service_exists_db {
                            MainView::Committing
                        } else {
                            MainView::Alive(service.container_name.clone().concat(" is ALIVE!"))
                        }
                    },
                }
            },
            _ => MainView::Committing,
        }
    }
}

} // verus!
