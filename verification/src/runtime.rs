use vstd::prelude::*;
use crate::window::NativeCall;

verus! {

/// The state of the application as a whole: whether the platform layer has
/// been started.
#[derive(Clone, Copy, Debug)]
pub struct Runtime {
    started: bool,
}

impl Runtime {
    /// Whether `start` has been called.
    pub closed spec fn is_started(&self) -> bool {
        self.started
    }

    /// The state before anything has been started.
    pub fn new() -> (r: Runtime)
        ensures
            !r.is_started(),
    {
        Runtime { started: false }
    }

    /// Whether `start` has been called.
    pub fn started(&self) -> (b: bool)
        ensures
            b == self.is_started(),
    {
        self.started
    }

    /// Initialize things; call this first, and only once.
    pub fn start(&mut self)
        requires
            !old(self).is_started(),
        ensures
            final(self).is_started(),
    {
        self.started = true;
    }

    /// Terminate the application as gracefully as possible: the call to make.
    pub fn exit(&self) -> (call: NativeCall)
        requires
            self.is_started(),
        ensures
            call == NativeCall::Exit,
    {
        NativeCall::Exit
    }

    /// Run a function on the main thread: the call to make.
    pub fn dispatch(&self) -> (call: NativeCall)
        requires
            self.is_started(),
        ensures
            call == NativeCall::Dispatch,
    {
        NativeCall::Dispatch
    }
}

} // verus!
