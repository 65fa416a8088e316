//! The screen shown while the modules are set up.

use crate::app::AppMsg;
use crate::controller::docker::DockerController;
use crate::controller::kvm::KVMController;
use crate::controller::state::StateController;
use crate::controller::StateWidget;
use vstd::prelude::*;

verus! {

/// The setup screen.
#[derive(Clone, Copy, Debug, PartialEq, Eq, Structural)]
pub struct SetupScreen;

/// What the setup screen shows: one line per module, and what its two
/// buttons send. A button that sends nothing cannot be pressed.
#[derive(Debug, PartialEq)]
pub struct SetupView {
    pub state: StateWidget,
    pub docker: StateWidget,
    pub kvm: StateWidget,
    /// What the retry button sends.
    pub retry: Option<AppMsg>,
    /// What the button that leaves the setup sends.
    pub next: Option<AppMsg>,
}

impl SetupScreen {
    /// Whether a retry can be asked for: no module is being initialised.
    pub open spec fn can_retry(
        state: &StateController,
        docker: &DockerController,
        kvm: &KVMController,
    ) -> bool {
        !state.spec_loading() && !docker.spec_loading() && !kvm.spec_loading()
    }

    /// Whether the setup can be left: every module is ready.
    pub open spec fn can_leave(
        state: &StateController,
        docker: &DockerController,
        kvm: &KVMController,
    ) -> bool {
        state.spec_is_some() && docker.spec_is_some() && kvm.spec_is_some()
    }

    /// What the setup screen shows for the given modules.
    pub fn view(&self, state: &StateController, docker: &DockerController, kvm: &KVMController) -> (view:
        SetupView)
        ensures
            view.state.label@ == "State"@,
            view.state.indicator == state.indicator(),
            view.docker.label@ == "Docker"@,
            view.docker.indicator == docker.indicator(),
            view.kvm.label@ == "KVM"@,
            view.kvm.indicator == kvm.indicator(),
            Self::can_retry(state, docker, kvm) ==> view.retry == Some(AppMsg::RetryInit),
            !Self::can_retry(state, docker, kvm) ==> view.retry is None,
            Self::can_leave(state, docker, kvm) ==> view.next == Some(AppMsg::DoneSetup),
            !Self::can_leave(state, docker, kvm) ==> view.next is None,
    {
        let retry = if !state.loading() && !docker.loading() && !kvm.loading() {
            Some(AppMsg::RetryInit)
        } else {
            None
        };
        let next = if state.is_some() && docker.is_some() && kvm.is_some() {
            Some(AppMsg::DoneSetup)
        } else {
            None
        };
        SetupView {
            state: state.state_widget(),
            docker: docker.state_widget(),
            kvm: kvm.state_widget(),
            retry,
            next,
        }
    }
}

} // verus!
