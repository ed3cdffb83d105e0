//! The window procedure of the host's window, taken over to see its
//! messages.

use vstd::prelude::*;

verus! {

/// The capacity of the queue of window messages.
pub const MESSAGE_QUEUE_CAPACITY: usize = 32;

/// A message as the window procedure got it.
#[derive(PartialEq, Eq, Copy, Clone, Debug, Structural)]
pub struct WndProcMsg {
    pub hwnd: usize,
    pub msg: u32,
    pub wparam: usize,
    pub lparam: isize,
}

/// Where a message goes after it was recorded.
#[derive(PartialEq, Eq, Copy, Clone, Debug, Structural)]
pub enum WndProcTarget {
    /// To the default window procedure: the host does not see it.
    Default,
    /// To the window procedure that the host had installed.
    Base,
}

/// What is kept for a window whose procedure was taken over.
#[derive(PartialEq, Eq, Copy, Clone, Debug, Structural)]
pub struct WndProcRecord {
    /// The window procedure that the host had installed.
    pub base: usize,
    /// Whether messages are kept from the host.
    pub block: bool,
}

impl WndProcRecord {
    /// Where a message goes: past the host while messages are blocked, to
    /// the host's own procedure otherwise.
    pub fn call(&self) -> (target: WndProcTarget)
        ensures
            target == if self.block {
                WndProcTarget::Default
            } else {
                WndProcTarget::Base
            },
    {
        if self.block {
            WndProcTarget::Default
        } else {
            WndProcTarget::Base
        }
    }
}

/// Where a message for a window goes: by its record where the window's
/// procedure was taken over, to the default procedure otherwise.
pub fn wndproc_shim(record: Option<&WndProcRecord>) -> (target: WndProcTarget)
    ensures
        target == match record {
            Some(record) if !record.block => WndProcTarget::Base,
            _ => WndProcTarget::Default,
        },
{
    match record {
        Some(record) => record.call(),
        None => WndProcTarget::Default,
    }
}

/// The window whose procedure is taken over.
#[derive(PartialEq, Eq, Copy, Clone, Debug, Structural)]
pub struct WndProcHook {
    pub hwnd: usize,
}

impl WndProcHook {
    /// The hook for a window. A window whose procedure is taken over
    /// already cannot be hooked again.
    pub fn new(hwnd: usize, already_hooked: bool) -> (hook: Result<WndProcHook, bool>)
        ensures
            hook == if already_hooked {
                Err::<WndProcHook, bool>(false)
            } else {
                Ok(WndProcHook { hwnd })
            },
    {
        if already_hooked {
            return Err(false);
        }
        Ok(WndProcHook { hwnd })
    }
}

/// The kernel's end of a window hook.
#[derive(PartialEq, Eq, Copy, Clone, Debug, Structural)]
pub struct WndProcHandle {
    block: bool,
    current: WndProcHook,
}

impl WndProcHandle {
    /// The window that is hooked, `0` for none.
    pub closed spec fn spec_current(self) -> usize {
        self.current.hwnd
    }

    /// Whether messages are kept from the host.
    pub closed spec fn spec_blocked(self) -> bool {
        self.block
    }

    pub fn new() -> (handle: WndProcHandle)
        ensures
            handle.current() == 0,
            !handle.blocked(),
    {
        WndProcHandle { block: false, current: WndProcHook { hwnd: 0 } }
    }

    /// The window that is hooked, `0` for none.
    #[verifier::when_used_as_spec(spec_current)]
    pub fn current(self) -> (hwnd: usize)
        ensures
            hwnd == self.spec_current(),
    {
        self.current.hwnd
    }

    /// Whether messages are kept from the host.
    #[verifier::when_used_as_spec(spec_blocked)]
    pub fn blocked(self) -> (block: bool)
        ensures
            block == self.spec_blocked(),
    {
        self.block
    }

    /// Turns to the window `hwnd`. Returns whether that is another window
    /// than the one hooked so far: it then needs a fresh queue and its
    /// procedure taken over.
    pub fn attach(&mut self, hwnd: usize) -> (hook: bool)
        ensures
            hook == (old(self).current() != hwnd),
            final(self).current() == hwnd,
            final(self).blocked() == old(self).blocked(),
    {
        if self.current.hwnd == hwnd {
            return false;
        }
        self.current = WndProcHook { hwnd };
        true
    }

    pub fn set_block(&mut self, block: bool)
        ensures
            final(self).blocked() == block,
            final(self).current() == old(self).current(),
    {
        self.block = block;
    }
}

} // verus!
