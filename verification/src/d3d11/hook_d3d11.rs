//! The hook chains of the Direct3D 11 backend: one for the swap chain's
//! `Present`, one for its `ResizeBuffers`.

use crate::hook::{
    dispatch, has_key, linked, removed, Dispatch, HookError, HookHandle, HookRegistry,
    SENTINEL_KEY,
};
use vstd::prelude::*;

verus! {

/// The two chains. Each is linked to its original function from the
/// start.
pub struct Direct3D11HookContext {
    present_chain: HookRegistry,
    resize_buffers_chain: HookRegistry,
}

/// The registration of one handler in each of the two chains.
#[derive(PartialEq, Eq, Debug)]
pub struct Direct3D11HookHandle {
    present_handle: usize,
    resize_buffers_handle: usize,
}

impl HookHandle for Direct3D11HookHandle {

}

impl Direct3D11HookHandle {
    /// The key of the handler in the chain of `Present`.
    pub closed spec fn present_key(&self) -> usize {
        self.present_handle
    }

    /// The key of the handler in the chain of `ResizeBuffers`.
    pub closed spec fn resize_buffers_key(&self) -> usize {
        self.resize_buffers_handle
    }
}

impl Direct3D11HookContext {
    /// The chain of `Present`, in order of registration.
    pub closed spec fn present_chain(&self) -> Seq<(usize, u64)> {
        self.present_chain@
    }

    /// The chain of `ResizeBuffers`, in order of registration.
    pub closed spec fn resize_buffers_chain(&self) -> Seq<(usize, u64)> {
        self.resize_buffers_chain@
    }

    /// The context's invariant: in both chains the keys are distinct and
    /// the sentinel comes first.
    pub closed spec fn wf(&self) -> bool {
        &&& self.present_chain.wf()
        &&& self.resize_buffers_chain.wf()
        &&& linked(self.present_chain@)
        &&& linked(self.resize_buffers_chain@)
    }

    /// Sets up the termination of both call chains: `present` and
    /// `resize_buffers` stand for the handlers that call the original
    /// functions. This comes before the detours are installed.
    pub fn init(present: u64, resize_buffers: u64) -> (context: Direct3D11HookContext)
        ensures
            context.wf(),
            context.present_chain() == seq![(SENTINEL_KEY, present)],
            context.resize_buffers_chain() == seq![(SENTINEL_KEY, resize_buffers)],
    {
        Direct3D11HookContext {
            present_chain: HookRegistry::link(present),
            resize_buffers_chain: HookRegistry::link(resize_buffers),
        }
    }

    /// Registers a handler in each chain, each under its own key. Where
    /// one of the keys is in use nothing is registered.
    pub fn new(&mut self, present: (usize, u64), resize_buffers: (usize, u64)) -> (handle: Result<
        Direct3D11HookHandle,
        HookError,
    >)
        requires
            old(self).wf(),
        ensures
            final(self).wf(),
            match handle {
                Ok(handle) => {
                    &&& !has_key(old(self).present_chain(), present.0)
                    &&& !has_key(old(self).resize_buffers_chain(), resize_buffers.0)
                    &&& handle.present_key() == present.0
                    &&& handle.resize_buffers_key() == resize_buffers.0
                    &&& final(self).present_chain() == old(self).present_chain().push(present)
                    &&& final(self).resize_buffers_chain() == old(self).resize_buffers_chain().push(
                        resize_buffers,
                    )
                },
                Err(error) => {
                    &&& error == if has_key(old(self).present_chain(), present.0) {
                        HookError::KeyInUse(present.0)
                    } else {
                        HookError::KeyInUse(resize_buffers.0)
                    }
                    &&& has_key(old(self).present_chain(), present.0) || has_key(
                        old(self).resize_buffers_chain(),
                        resize_buffers.0,
                    )
                    &&& final(self).present_chain() == old(self).present_chain()
                    &&& final(self).resize_buffers_chain() == old(self).resize_buffers_chain()
                },
            },
    {
        if self.present_chain.contains_key(present.0) {
            return Err(HookError::KeyInUse(present.0));
        }
        if self.resize_buffers_chain.contains_key(resize_buffers.0) {
            return Err(HookError::KeyInUse(resize_buffers.0));
        }
        let _ = self.present_chain.register(present.0, present.1);
        let _ = self.resize_buffers_chain.register(resize_buffers.0, resize_buffers.1);
        Ok(
            Direct3D11HookHandle {
                present_handle: present.0,
                resize_buffers_handle: resize_buffers.0,
            },
        )
    }

    /// Gives a handle back: its handlers leave their chains, and nothing
    /// else does. This is what the end of a handle's life does, unless
    /// the handle was persisted.
    pub fn release(&mut self, handle: Direct3D11HookHandle)
        requires
            old(self).wf(),
        ensures
            final(self).wf(),
            final(self).present_chain() == if handle.present_key() == SENTINEL_KEY {
                old(self).present_chain()
            } else {
                removed(old(self).present_chain(), handle.present_key())
            },
            final(self).resize_buffers_chain() == if handle.resize_buffers_key()
                == SENTINEL_KEY {
                old(self).resize_buffers_chain()
            } else {
                removed(old(self).resize_buffers_chain(), handle.resize_buffers_key())
            },
    {
        self.present_chain.release(handle.present_handle);
        self.resize_buffers_chain.release(handle.resize_buffers_handle);
    }

    /// Where a call of `Present` goes first.
    pub fn present(&self) -> (target: Dispatch<'_>)
        requires
            self.wf(),
        ensures
            target matches Dispatch::Handler(first, next) && next.wf() && *first
                == self.present_chain().last().1 && next.pending()
                == self.present_chain().reverse().skip(1),
    {
        dispatch(Some(&self.present_chain))
    }

    /// Where a call of `ResizeBuffers` goes first.
    pub fn resize_buffers(&self) -> (target: Dispatch<'_>)
        requires
            self.wf(),
        ensures
            target matches Dispatch::Handler(first, next) && next.wf() && *first
                == self.resize_buffers_chain().last().1 && next.pending()
                == self.resize_buffers_chain().reverse().skip(1),
    {
        dispatch(Some(&self.resize_buffers_chain))
    }
}

} // verus!
