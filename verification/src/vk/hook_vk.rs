//! The hook chain of the Vulkan layer: one chain for `vkCreateSwapchainKHR`.

use crate::hook::{
    dispatch, has_key, linked, removed, Dispatch, HookError, HookHandle, HookRegistry,
    SENTINEL_KEY,
};
use vstd::prelude::*;

verus! {

/// The chain of `vkCreateSwapchainKHR`, linked to the original function from the start.
pub struct VkHookContext {
    create_swapchain_khr_chain: HookRegistry,
}

/// The registration of one handler in the chain.
#[derive(PartialEq, Eq, Debug)]
pub struct VkHookHandle {
    create_swapchain_khr_handle: usize,
}

impl HookHandle for VkHookHandle {

}

impl VkHookHandle {
    /// The key of the handler in the chain.
    pub closed spec fn key(&self) -> usize {
        self.create_swapchain_khr_handle
    }
}

impl VkHookContext {
    /// The chain, in order of registration.
    pub closed spec fn chain(&self) -> Seq<(usize, u64)> {
        self.create_swapchain_khr_chain@
    }

    /// The context's invariant: the keys of the chain are distinct and the
    /// sentinel comes first.
    pub closed spec fn wf(&self) -> bool {
        self.create_swapchain_khr_chain.wf() && linked(self.create_swapchain_khr_chain@)
    }

    /// Sets up the termination of the call chain: `create_swapchain_khr` stands for
    /// the handler that calls the original function. This comes before
    /// the layer hands out its entry points.
    pub fn init(create_swapchain_khr: u64) -> (context: VkHookContext)
        ensures
            context.wf(),
            context.chain() == seq![(SENTINEL_KEY, create_swapchain_khr)],
    {
        VkHookContext { create_swapchain_khr_chain: HookRegistry::link(create_swapchain_khr) }
    }

    /// Registers a handler under its key. A key that is in use is
    /// refused.
    pub fn new(&mut self, create_swapchain_khr: (usize, u64)) -> (handle: Result<VkHookHandle, HookError>)
        requires
            old(self).wf(),
        ensures
            final(self).wf(),
            match handle {
                Ok(handle) => {
                    &&& !has_key(old(self).chain(), create_swapchain_khr.0)
                    &&& handle.key() == create_swapchain_khr.0
                    &&& final(self).chain() == old(self).chain().push(create_swapchain_khr)
                },
                Err(error) => {
                    &&& has_key(old(self).chain(), create_swapchain_khr.0)
                    &&& error == HookError::KeyInUse(create_swapchain_khr.0)
                    &&& final(self).chain() == old(self).chain()
                },
            },
    {
        match self.create_swapchain_khr_chain.register(create_swapchain_khr.0, create_swapchain_khr.1) {
            Ok(_) => Ok(VkHookHandle { create_swapchain_khr_handle: create_swapchain_khr.0 }),
            Err(error) => Err(error),
        }
    }

    /// Gives a handle back: its handler leaves the chain, and nothing
    /// else does. This is what the end of a handle's life does, unless
    /// the handle was persisted.
    pub fn release(&mut self, handle: VkHookHandle)
        requires
            old(self).wf(),
        ensures
            final(self).wf(),
            final(self).chain() == if handle.key() == SENTINEL_KEY {
                old(self).chain()
            } else {
                removed(old(self).chain(), handle.key())
            },
    {
        self.create_swapchain_khr_chain.release(handle.create_swapchain_khr_handle);
    }

    /// Where a call of `vkCreateSwapchainKHR` goes first.
    pub fn create_swapchain_khr(&self) -> (target: Dispatch<'_>)
        requires
            self.wf(),
        ensures
            target matches Dispatch::Handler(first, next) && next.wf() && *first
                == self.chain().last().1 && next.pending() == self.chain().reverse().skip(1),
    {
        dispatch(Some(&self.create_swapchain_khr_chain))
    }
}

} // verus!
