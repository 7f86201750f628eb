use vstd::prelude::*;
use crate::window::Window;

verus! {

/// An event handler; you probably want to implement one.
///
/// - When the webpage calls `window.tether`, the message is passed to `handle`.
/// - The handler is dropped when the window is closed.
pub trait Handler: 'static {
    /// The handler's state, as far as its specification speaks of it.
    open spec fn state(&self) -> int {
        0
    }

    /// What a handler is after it took `message` from the page in `window`
    /// once, starting from the state `before`. A handler that says nothing
    /// of it is bound by nothing.
    open spec fn took(&self, before: int, window: Window, message: Seq<char>) -> bool {
        true
    }

    /// The webpage called `window.tether` with the given string.
    fn handle(&mut self, window: Window, message: &str)
        ensures
            final(self).took(old(self).state(), window, message@),
    ;
}

/// The handler that ignores every message; a window made without a handler
/// gets this one.
impl Handler for () {
    fn handle(&mut self, _window: Window, _message: &str) {
    }
}

/// A boxed handler handles messages as the handler in the box does.
impl Handler for Box<dyn Handler> {
    open spec fn state(&self) -> int {
        (**self).state()
    }

    open spec fn took(&self, before: int, window: Window, message: Seq<char>) -> bool {
        (**self).took(before, window, message)
    }

    fn handle(&mut self, window: Window, message: &str) {
        (**self).handle(window, message)
    }
}

} // verus!
