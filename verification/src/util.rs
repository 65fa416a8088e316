//! Small helpers shared by the modules.

use std::sync::Arc;
use vstd::prelude::*;

verus! {

/// Moves a value behind a shared pointer.
pub trait Arced: Sized {
    fn arced(self) -> (shared: Arc<Self>)
        ensures
            *shared == self,
    {
        Arc::new(self)
    }
}

impl<T> Arced for T {
}

} // verus!
