//! The contract between a frame kernel and its hooks.

use crate::hook::{HookError, HookHandle};
use std::mem::ManuallyDrop;
use vstd::prelude::*;

verus! {

/// All hooks are driven by a frame kernel at a frame-level granularity.
pub trait FrameKernel: Sized {
    /// The handle of the kernel's registrations.
    type Handle: HookHandle;

    /// The hook chains that the kernel registers in.
    type Context;

    /// The handlers that the kernel registers, each with its key.
    type Hooks;

    /// The invariant of the hook chains.
    spec fn valid(context: &Self::Context) -> bool;

    /// Initializes the kernel's hooks. The handle comes back persisted:
    /// the hooks stay until someone releases it by hand.
    fn init(&mut self, context: &mut Self::Context, hooks: Self::Hooks) -> (handle: Result<
        ManuallyDrop<Self::Handle>,
        HookError,
    >)
        requires
            Self::valid(old(context)),
        ensures
            Self::valid(final(context)),
    ;
}

} // verus!
