//! The backend modules and the lifecycle that each of them goes through.

pub mod docker;
pub mod kvm;
pub mod state;

use crate::app::{AppTask, Job};
use crate::error::Error;
use vstd::prelude::*;

verus! {

/// A backend that is initialised once and may be initialised again after a
/// failure.
///
/// The outside work of an initialisation (opening a session, listing and
/// inspecting) is not done here: `init_impl` is handed what that work found
/// and builds the module from it.
pub trait ControllerModule: Sized {
    /// What the outside work of an initialisation hands over.
    type Init;

    /// The name under which the module is shown.
    spec fn spec_name() -> Seq<char>;

    /// The name under which the module is shown.
    fn name() -> (name: &'static str)
        ensures
            name@ == Self::spec_name(),
    ;

    /// Builds the module from what the outside work found, or hands on the
    /// failure that ended it.
    fn init_impl(input: Self::Init) -> Result<Self, Error>;
}

/// Where one module stands in its lifecycle.
#[derive(Debug, PartialEq)]
pub enum ModuleSlot<Module> {
    /// No initialisation was started yet.
    Empty,
    /// An initialisation is under way.
    Loading,
    /// The last initialisation gave this module.
    Ready(Module),
    /// The last initialisation failed.
    Failed(Error),
}

/// The lifecycle of one module, as the control loop keeps it.
#[derive(Debug, PartialEq)]
pub struct Controller<Module> {
    pub slot: ModuleSlot<Module>,
}

/// How the state of a module is shown.
#[derive(Clone, Copy, Debug, PartialEq, Eq, Structural)]
pub enum Indicator {
    /// The module is ready.
    Success,
    /// The module is being initialised.
    Spinner,
    /// The module is not ready and nothing is under way.
    Danger,
}

/// The line that shows one module: its name and its state.
#[derive(Debug, PartialEq, Eq)]
pub struct StateWidget {
    pub label: &'static str,
    pub indicator: Indicator,
}

impl<Module> Default for Controller<Module> {
    fn default() -> (controller: Controller<Module>)
        ensures
            controller.slot is Empty,
    {
        Controller { slot: ModuleSlot::Empty }
    }
}

impl<Module: ControllerModule> Controller<Module> {
    /// Whether an initialisation is under way.
    pub open spec fn spec_loading(&self) -> bool {
        self.slot is Loading
    }

    /// Whether an initialisation is under way.
    #[verifier::when_used_as_spec(spec_loading)]
    pub fn loading(&self) -> (loading: bool)
        ensures
            loading == self.spec_loading(),
    {
        match &self.slot {
            ModuleSlot::Loading => true,
            _ => false,
        }
    }

    /// Whether the module is ready.
    pub open spec fn spec_is_some(&self) -> bool {
        self.slot is Ready
    }

    /// Whether the module is ready.
    #[verifier::when_used_as_spec(spec_is_some)]
    pub fn is_some(&self) -> (ready: bool)
        ensures
            ready == self.spec_is_some(),
    {
        match &self.slot {
            ModuleSlot::Ready(_) => true,
            _ => false,
        }
    }

    /// Whether the module may be initialised again: it is not ready.
    pub open spec fn spec_is_none(&self) -> bool {
        !(self.slot is Ready)
    }

    /// Whether the module may be initialised again: it is not ready.
    #[verifier::when_used_as_spec(spec_is_none)]
    pub fn is_none(&self) -> (eligible: bool)
        ensures
            eligible == self.spec_is_none(),
    {
        !self.is_some()
    }

    /// The module, where it is ready.
    pub fn as_ref(&self) -> (module: Option<&Module>)
        ensures
            module == match self.slot {
                ModuleSlot::Ready(module) => Some(&module),
                _ => None,
            },
    {
        match &self.slot {
            ModuleSlot::Ready(module) => Some(module),
            _ => None,
        }
    }

    /// The controller once a request to initialise has been taken in:
    /// loading, whatever it was before.
    pub open spec fn load_requested(self) -> Controller<Module> {
        Controller { slot: ModuleSlot::Loading }
    }

    /// Takes in a request to initialise the module by `job`. While an
    /// initialisation is under way the request is ignored; otherwise the
    /// module is loading from now on and the job is to be run.
    pub fn load(&mut self, job: Job) -> (task: AppTask)
        ensures
            *final(self) == old(self).load_requested(),
            old(self).spec_loading() ==> task == AppTask::Nothing,
            !old(self).spec_loading() ==> task == AppTask::Perform(job),
    {
        if self.loading() {
            AppTask::Nothing
        } else {
            self.slot = ModuleSlot::Loading;
            AppTask::Perform(job)
        }
    }

    /// The controller once an initialisation has ended in `res`: ready with
    /// the module it gave, or failed with its failure.
    pub open spec fn load_ended(self, res: Result<Module, Error>) -> Controller<Module> {
        match res {
            Ok(module) => Controller { slot: ModuleSlot::Ready(module) },
            Err(error) => Controller { slot: ModuleSlot::Failed(error) },
        }
    }

    /// Takes in the outcome of an initialisation. `on_success` is what is to
    /// be done next where the module is ready; after a failure nothing is.
    pub fn loaded(&mut self, res: Result<Module, Error>, on_success: AppTask) -> (task: AppTask)
        ensures
            *final(self) == old(self).load_ended(res),
            res is Ok ==> task == on_success,
            res is Err ==> task == AppTask::Nothing,
    {
        match res {
            Ok(module) => {
                self.slot = ModuleSlot::Ready(module);
                on_success
            },
            Err(error) => {
                self.slot = ModuleSlot::Failed(error);
                AppTask::Nothing
            },
        }
    }

    /// How the state of the module is shown: ready, being initialised, or
    /// neither.
    pub open spec fn indicator(&self) -> Indicator {
        match self.slot {
            ModuleSlot::Ready(_) => Indicator::Success,
            ModuleSlot::Loading => Indicator::Spinner,
            _ => Indicator::Danger,
        }
    }

    /// The line that shows the module.
    pub fn state_widget(&self) -> (widget: StateWidget)
        ensures
            widget.label@ == Module::spec_name(),
            widget.indicator == self.indicator(),
    {
        let indicator = match &self.slot {
            ModuleSlot::Ready(_) => Indicator::Success,
            ModuleSlot::Loading => Indicator::Spinner,
            _ => Indicator::Danger,
        };
        StateWidget { label: Module::name(), indicator }
    }
}

} // verus!
