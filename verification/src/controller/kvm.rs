//! The hypervisor module.

use crate::controller::{Controller, ControllerModule};
use crate::error::Error;
use vstd::prelude::*;

verus! {

/// The lifecycle of the hypervisor module.
pub type KVMController = Controller<KVMModule>;

/// The hypervisor, once its capability probe has succeeded.
#[derive(Clone, Copy, Debug, PartialEq, Eq, Structural)]
pub struct KVMModule {}

impl ControllerModule for KVMModule {
    /// The outcome of the capability probe.
    type Init = Result<(), Error>;

    open spec fn spec_name() -> Seq<char> {
        "KVM"@
    }

    fn name() -> (name: &'static str) {
        "KVM"
    }

    fn init_impl(input: Result<(), Error>) -> (module: Result<KVMModule, Error>)
        ensures
            module == match input {
                Ok(_) => Ok::<KVMModule, Error>(KVMModule {  }),
                Err(error) => Err(error),
            },
    {
        match input {
            Ok(_) => Ok(KVMModule {  }),
            Err(error) => Err(error),
        }
    }
}

} // verus!
