use vstd::prelude::*;
use crate::handler::Handler;

verus! {

/// The window options.
///
/// Note that these are mostly *suggestions* rather than *requirements*.
pub struct Options {
    /// The initial window width in pixels.
    pub initial_width: usize,
    /// The initial window height in pixels.
    pub initial_height: usize,
    /// The minimum window width in pixels.
    pub minimum_width: usize,
    /// The minimum window height in pixels.
    pub minimum_height: usize,
    /// Whether to draw the title bar and stuff like that.
    pub borderless: bool,
    /// The native layer's debug flag, passed on as it is.
    pub debug: bool,
    /// The window's handler.
    pub handler: Option<Box<dyn Handler>>,
}

impl Default for Options {
    fn default() -> (o: Self)
        ensures
            o.initial_width == 640,
            o.initial_height == 480,
            o.minimum_width == 480,
            o.minimum_height == 360,
            !o.borderless,
            !o.debug,
            o.handler is None,
    {
        Options {
            initial_width: 640,
            initial_height: 480,
            minimum_width: 480,
            minimum_height: 360,
            borderless: false,
            debug: false,
            handler: None,
        }
    }
}

/// The handler `h`, boxed as a handler of any type.
pub open spec fn boxed_handler<H: Handler>(h: H) -> Box<dyn Handler> {
    Box::new(h)
}

/// The handler `h` in the form that [`Options::handler`] takes.
pub fn boxed<H: Handler>(h: H) -> (b: Option<Box<dyn Handler>>)
    ensures
        b == Some(boxed_handler(h)),
{
    let x: Box<dyn Handler> = Box::new(h);
    Some(x)
}

} // verus!
