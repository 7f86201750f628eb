use vstd::prelude::*;
use crate::handler::Handler;
use crate::window::Window;

verus! {

/// A window size in pixels.
#[derive(Clone, Copy, Debug, PartialEq, Eq, Structural)]
pub struct Size {
    pub width: usize,
    pub height: usize,
}

/// What a builder's settings say, apart from its handler.
#[derive(Clone, Copy, Debug, PartialEq, Eq, Structural)]
pub struct Settings {
    /// The initial window size if one was asked for.
    pub initial_size: Option<Size>,
    /// The minimum window size if one was asked for.
    pub minimum_size: Option<Size>,
    /// Whether the window starts full screen.
    pub fullscreen: bool,
    /// Whether the window starts maximized.
    pub maximized: bool,
    /// Whether the title bar and borders are left out.
    pub borderless: bool,
    /// The native layer's debug flag.
    pub debug: bool,
}

impl Settings {
    /// Nothing asked for.
    pub open spec fn initial() -> Settings {
        Settings {
            initial_size: None,
            minimum_size: None,
            fullscreen: false,
            maximized: false,
            borderless: false,
            debug: false,
        }
    }

    /// These settings with the initial size replaced.
    pub open spec fn with_initial_size(self, width: usize, height: usize) -> Settings {
        Settings { initial_size: Some(Size { width, height }), ..self }
    }

    /// These settings with the minimum size replaced.
    pub open spec fn with_minimum_size(self, width: usize, height: usize) -> Settings {
        Settings { minimum_size: Some(Size { width, height }), ..self }
    }

    /// These settings, full screen.
    pub open spec fn with_fullscreen(self) -> Settings {
        Settings { fullscreen: true, ..self }
    }

    /// These settings, maximized.
    pub open spec fn with_maximized(self) -> Settings {
        Settings { maximized: true, ..self }
    }

    /// These settings, borderless.
    pub open spec fn with_borderless(self) -> Settings {
        Settings { borderless: true, ..self }
    }

    /// These settings, with the debug flag set.
    pub open spec fn with_debug(self) -> Settings {
        Settings { debug: true, ..self }
    }
}

/// Window options, assembled one setting at a time, with a handler of type `H`.
pub struct Options<H> {
    initial_size: Option<Size>,
    minimum_size: Option<Size>,
    fullscreen: bool,
    maximized: bool,
    borderless: bool,
    debug: bool,
    handler: H,
}

impl<H> View for Options<H> {
    type V = Settings;

    closed spec fn view(&self) -> Settings {
        Settings {
            initial_size: self.initial_size,
            minimum_size: self.minimum_size,
            fullscreen: self.fullscreen,
            maximized: self.maximized,
            borderless: self.borderless,
            debug: self.debug,
        }
    }
}

impl Options<()> {
    /// Options with nothing asked for and a handler that ignores every message.
    pub fn new() -> (o: Self)
        ensures
            o@ == Settings::initial(),
    {
        Options {
            initial_size: None,
            minimum_size: None,
            fullscreen: false,
            maximized: false,
            borderless: false,
            debug: false,
            handler: (),
        }
    }
}

impl<H> Options<H> {
    /// The handler these options hold.
    pub closed spec fn handler_of(self) -> H {
        self.handler
    }

    /// Ask for the given initial window size.
    pub fn initial_size(self, width: usize, height: usize) -> (o: Self)
        ensures
            o@ == self@.with_initial_size(width, height),
            o@.initial_size == Some(Size { width, height }),
            o@.minimum_size == self@.minimum_size,
            o@.fullscreen == self@.fullscreen,
            o@.maximized == self@.maximized,
            o@.borderless == self@.borderless,
            o@.debug == self@.debug,
            o.handler_of() == self.handler_of(),
    {
        let mut o = self;
        o.initial_size = Some(Size { width, height });
        o
    }

    /// Ask for the given minimum window size.
    pub fn minimum_size(self, width: usize, height: usize) -> (o: Self)
        ensures
            o@ == self@.with_minimum_size(width, height),
            o@.minimum_size == Some(Size { width, height }),
            o@.initial_size == self@.initial_size,
            o@.fullscreen == self@.fullscreen,
            o@.maximized == self@.maximized,
            o@.borderless == self@.borderless,
            o@.debug == self@.debug,
            o.handler_of() == self.handler_of(),
    {
        let mut o = self;
        o.minimum_size = Some(Size { width, height });
        o
    }

    /// Ask for the window to start full screen.
    pub fn fullscreen(self) -> (o: Self)
        ensures
            o@ == self@.with_fullscreen(),
            o@.fullscreen == true,
            o@.initial_size == self@.initial_size,
            o@.minimum_size == self@.minimum_size,
            o@.maximized == self@.maximized,
            o@.borderless == self@.borderless,
            o@.debug == self@.debug,
            o.handler_of() == self.handler_of(),
    {
        let mut o = self;
        o.fullscreen = true;
        o
    }

    /// Ask for the window to start maximized.
    pub fn maximized(self) -> (o: Self)
        ensures
            o@ == self@.with_maximized(),
            o@.maximized == true,
            o@.initial_size == self@.initial_size,
            o@.minimum_size == self@.minimum_size,
            o@.fullscreen == self@.fullscreen,
            o@.borderless == self@.borderless,
            o@.debug == self@.debug,
            o.handler_of() == self.handler_of(),
    {
        let mut o = self;
        o.maximized = true;
        o
    }

    /// Ask for the window to have no title bar and borders.
    pub fn borderless(self) -> (o: Self)
        ensures
            o@ == self@.with_borderless(),
            o@.borderless == true,
            o@.initial_size == self@.initial_size,
            o@.minimum_size == self@.minimum_size,
            o@.fullscreen == self@.fullscreen,
            o@.maximized == self@.maximized,
            o@.debug == self@.debug,
            o.handler_of() == self.handler_of(),
    {
        let mut o = self;
        o.borderless = true;
        o
    }

    /// Set the native layer's debug flag.
    pub fn debug(self) -> (o: Self)
        ensures
            o@ == self@.with_debug(),
            o@.debug == true,
            o@.initial_size == self@.initial_size,
            o@.minimum_size == self@.minimum_size,
            o@.fullscreen == self@.fullscreen,
            o@.maximized == self@.maximized,
            o@.borderless == self@.borderless,
            o.handler_of() == self.handler_of(),
    {
        let mut o = self;
        o.debug = true;
        o
    }

    /// The same settings with another handler.
    pub fn handler<J>(self, handler: J) -> (o: Options<J>)
        ensures
            o@ == self@,
            o.handler_of() == handler,
    {
        Options {
            initial_size: self.initial_size,
            minimum_size: self.minimum_size,
            fullscreen: self.fullscreen,
            maximized: self.maximized,
            borderless: self.borderless,
            debug: self.debug,
            handler,
        }
    }

    /// The settings these options hold.
    pub fn settings(&self) -> (s: Settings)
        ensures
            s == self@,
    {
        Settings {
            initial_size: self.initial_size,
            minimum_size: self.minimum_size,
            fullscreen: self.fullscreen,
            maximized: self.maximized,
            borderless: self.borderless,
            debug: self.debug,
        }
    }
}

impl<H: Handler> Options<H> {
    /// A window for these options. No native window is asked for: the
    /// window is not open, and the options are dropped.
    pub fn build(self) -> (w: Window)
        ensures
            w@ is None,
    {
        Window::unopened()
    }
}

/// Asking for the initial size and for the minimum size gives the same
/// settings in either order.
pub proof fn lemma_sizes_commute(s: Settings, iw: usize, ih: usize, mw: usize, mh: usize)
    ensures
        s.with_initial_size(iw, ih).with_minimum_size(mw, mh) == s.with_minimum_size(
            mw,
            mh,
        ).with_initial_size(iw, ih),
{
}

/// Of two sizes asked for, the later one counts.
pub proof fn lemma_later_size_wins(s: Settings, w1: usize, h1: usize, w2: usize, h2: usize)
    ensures
        s.with_initial_size(w1, h1).with_initial_size(w2, h2) == s.with_initial_size(w2, h2),
        s.with_minimum_size(w1, h1).with_minimum_size(w2, h2) == s.with_minimum_size(w2, h2),
{
}

/// Asking for a flag twice is asking for it once.
pub proof fn lemma_flags_idempotent(s: Settings)
    ensures
        s.with_fullscreen().with_fullscreen() == s.with_fullscreen(),
        s.with_maximized().with_maximized() == s.with_maximized(),
        s.with_borderless().with_borderless() == s.with_borderless(),
        s.with_debug().with_debug() == s.with_debug(),
{
}

/// The flags can be asked for in any order.
pub proof fn lemma_flags_commute(s: Settings)
    ensures
        s.with_fullscreen().with_maximized() == s.with_maximized().with_fullscreen(),
        s.with_fullscreen().with_borderless() == s.with_borderless().with_fullscreen(),
        s.with_fullscreen().with_debug() == s.with_debug().with_fullscreen(),
        s.with_maximized().with_borderless() == s.with_borderless().with_maximized(),
        s.with_maximized().with_debug() == s.with_debug().with_maximized(),
        s.with_borderless().with_debug() == s.with_debug().with_borderless(),
{
}

/// A size and a flag can be asked for in either order.
pub proof fn lemma_sizes_and_flags_commute(s: Settings, w: usize, h: usize)
    ensures
        s.with_initial_size(w, h).with_fullscreen() == s.with_fullscreen().with_initial_size(w, h),
        s.with_initial_size(w, h).with_maximized() == s.with_maximized().with_initial_size(w, h),
        s.with_initial_size(w, h).with_borderless() == s.with_borderless().with_initial_size(w, h),
        s.with_initial_size(w, h).with_debug() == s.with_debug().with_initial_size(w, h),
        s.with_minimum_size(w, h).with_fullscreen() == s.with_fullscreen().with_minimum_size(w, h),
        s.with_minimum_size(w, h).with_maximized() == s.with_maximized().with_minimum_size(w, h),
        s.with_minimum_size(w, h).with_borderless() == s.with_borderless().with_minimum_size(w, h),
        s.with_minimum_size(w, h).with_debug() == s.with_debug().with_minimum_size(w, h),
{
}

/// Asking for a size sets exactly that size, as given, and leaves every
/// other setting as it was.
pub proof fn lemma_size_setters_set_what_is_given(s: Settings, w: usize, h: usize)
    ensures
        s.with_initial_size(w, h).initial_size == Some(Size { width: w, height: h }),
        s.with_initial_size(w, h).minimum_size == s.minimum_size,
        s.with_initial_size(w, h).fullscreen == s.fullscreen,
        s.with_initial_size(w, h).maximized == s.maximized,
        s.with_initial_size(w, h).borderless == s.borderless,
        s.with_initial_size(w, h).debug == s.debug,
        s.with_minimum_size(w, h).minimum_size == Some(Size { width: w, height: h }),
        s.with_minimum_size(w, h).initial_size == s.initial_size,
        s.with_minimum_size(w, h).fullscreen == s.fullscreen,
        s.with_minimum_size(w, h).maximized == s.maximized,
        s.with_minimum_size(w, h).borderless == s.borderless,
        s.with_minimum_size(w, h).debug == s.debug,
{
}

/// Asking for a flag sets exactly that flag and leaves every other setting
/// as it was.
pub proof fn lemma_flag_setters_set_their_flag(s: Settings)
    ensures
        s.with_fullscreen() == (Settings { fullscreen: true, ..s }),
        s.with_maximized() == (Settings { maximized: true, ..s }),
        s.with_borderless() == (Settings { borderless: true, ..s }),
        s.with_debug() == (Settings { debug: true, ..s }),
        s.with_fullscreen().fullscreen && s.with_maximized().maximized,
        s.with_borderless().borderless && s.with_debug().debug,
{
}

} // verus!
