//! The life cycle of the global kernel: one command channel and one UI
//! context for the whole process, set up once and shared by every
//! backend.

use vstd::prelude::*;

verus! {

/// What of the global kernel exists.
#[derive(PartialEq, Eq, Copy, Clone, Debug, Structural)]
pub struct KernelLifecycle {
    /// The context that is handed to the backends.
    pub context: bool,
    /// The open connection, until the pump loop takes it.
    pub connection: bool,
    /// The sending end of the kill signal.
    pub kill_handle: bool,
    /// The UI context.
    pub imgui: bool,
}

/// What `acquire` has to set up.
#[derive(PartialEq, Eq, Copy, Clone, Debug, Structural)]
pub enum AcquirePlan {
    /// Nothing: the existing context is reused.
    Reuse,
    /// Open the connection where `connect` says so, then create the UI
    /// context where `create_imgui` says so, then the kernel context.
    Initialize { connect: bool, create_imgui: bool },
}

impl KernelLifecycle {
    /// Nothing exists yet.
    pub fn new() -> (lifecycle: KernelLifecycle)
        ensures
            lifecycle == (KernelLifecycle {
                context: false,
                connection: false,
                kill_handle: false,
                imgui: false,
            }),
    {
        KernelLifecycle { context: false, connection: false, kill_handle: false, imgui: false }
    }

    /// What acquiring a handle to the global kernel has to set up. The
    /// first call initializes the connection and the UI context; later
    /// calls reuse the context.
    pub fn acquire(&self) -> (plan: AcquirePlan)
        ensures
            plan == if self.context {
                AcquirePlan::Reuse
            } else {
                AcquirePlan::Initialize { connect: !self.connection, create_imgui: !self.imgui }
            },
    {
        if self.context {
            return AcquirePlan::Reuse;
        }
        AcquirePlan::Initialize { connect: !self.connection, create_imgui: !self.imgui }
    }

    /// Takes in how the set-up went: `connected` tells whether the
    /// connection stands, be it from now or from before. Without a
    /// connection nothing is set up and the acquisition fails.
    pub fn acquired(&mut self, connected: bool) -> (ready: bool)
        ensures
            ready == (old(self).context || connected),
            *final(self) == if old(self).context || !connected {
                *old(self)
            } else {
                KernelLifecycle {
                    context: true,
                    connection: true,
                    kill_handle: old(self).kill_handle || !old(self).connection,
                    imgui: true,
                }
            },
    {
        if self.context {
            return true;
        }
        if !connected {
            return false;
        }
        if !self.connection {
            self.connection = true;
            self.kill_handle = true;
        }
        self.imgui = true;
        self.context = true;
        true
    }

    /// Starts the kernel. Returns whether there is a connection to pump:
    /// the pump loop takes it, so that a second start finds none.
    pub fn start(&mut self) -> (listen: bool)
        ensures
            listen == old(self).connection,
            *final(self) == (KernelLifecycle { connection: false, ..*old(self) }),
    {
        if !self.connection {
            return false;
        }
        self.connection = false;
        true
    }

    /// Kills a running pump loop from another thread. Returns whether
    /// the kill signal is to be sent. The kernel context is dropped. This
    /// must come after `start`: a connection that was acquired and never
    /// started cannot be killed.
    pub fn kill(&mut self) -> (signal: bool)
        requires
            !old(self).connection,
        ensures
            signal == old(self).kill_handle,
            *final(self) == (KernelLifecycle { kill_handle: false, context: false, ..*old(self) }),
    {
        let signal = self.kill_handle;
        self.kill_handle = false;
        self.context = false;
        signal
    }
}

} // verus!
