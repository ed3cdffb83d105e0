//! The hook chain of the plain OpenGL backend: one chain for `wglSwapBuffers`.

use crate::hook::{
    dispatch, has_key, linked, removed, Dispatch, HookError, HookHandle, HookRegistry,
    SENTINEL_KEY,
};
use vstd::prelude::*;

verus! {

/// The chain of `wglSwapBuffers`, linked to the original function from the start.
pub struct OpenGLHookContext {
    swap_buffers_chain: HookRegistry,
}

/// The registration of one handler in the chain.
#[derive(PartialEq, Eq, Debug)]
pub struct OpenGLHookHandle {
    swap_buffers_handle: usize,
}

impl HookHandle for OpenGLHookHandle {

}

impl OpenGLHookHandle {
    /// The key of the handler in the chain.
    pub closed spec fn key(&self) -> usize {
        self.swap_buffers_handle
    }
}

impl OpenGLHookContext {
    /// The chain, in order of registration.
    pub closed spec fn chain(&self) -> Seq<(usize, u64)> {
        self.swap_buffers_chain@
    }

    /// The context's invariant: the keys of the chain are distinct and the
    /// sentinel comes first.
    pub closed spec fn wf(&self) -> bool {
        self.swap_buffers_chain.wf() && linked(self.swap_buffers_chain@)
    }

    /// Sets up the termination of the call chain: `swap_buffers` stands for
    /// the handler that calls the original function. This comes before
    /// the detour is installed and the OpenGL functions are loaded.
    pub fn init(swap_buffers: u64) -> (context: OpenGLHookContext)
        ensures
            context.wf(),
            context.chain() == seq![(SENTINEL_KEY, swap_buffers)],
    {
        OpenGLHookContext { swap_buffers_chain: HookRegistry::link(swap_buffers) }
    }

    /// Registers a handler under its key. A key that is in use is
    /// refused.
    pub fn new(&mut self, swap_buffers: (usize, u64)) -> (handle: Result<OpenGLHookHandle, HookError>)
        requires
            old(self).wf(),
        ensures
            final(self).wf(),
            match handle {
                Ok(handle) => {
                    &&& !has_key(old(self).chain(), swap_buffers.0)
                    &&& handle.key() == swap_buffers.0
                    &&& final(self).chain() == old(self).chain().push(swap_buffers)
                },
                Err(error) => {
                    &&& has_key(old(self).chain(), swap_buffers.0)
                    &&& error == HookError::KeyInUse(swap_buffers.0)
                    &&& final(self).chain() == old(self).chain()
                },
            },
    {
        match self.swap_buffers_chain.register(swap_buffers.0, swap_buffers.1) {
            Ok(_) => Ok(OpenGLHookHandle { swap_buffers_handle: swap_buffers.0 }),
            Err(error) => Err(error),
        }
    }

    /// Gives a handle back: its handler leaves the chain, and nothing
    /// else does. This is what the end of a handle's life does, unless
    /// the handle was persisted.
    pub fn release(&mut self, handle: OpenGLHookHandle)
        requires
            old(self).wf(),
        ensures
            final(self).wf(),
            final(self).chain() == if handle.key() == SENTINEL_KEY {
                old(self).chain()
            } else {
                removed(old(self).chain(), handle.key())
            },
    {
        self.swap_buffers_chain.release(handle.swap_buffers_handle);
    }

    /// Where a call of `wglSwapBuffers` goes first.
    pub fn swap_buffers(&self) -> (target: Dispatch<'_>)
        requires
            self.wf(),
        ensures
            target matches Dispatch::Handler(first, next) && next.wf() && *first
                == self.chain().last().1 && next.pending() == self.chain().reverse().skip(1),
    {
        dispatch(Some(&self.swap_buffers_chain))
    }
}

} // verus!
