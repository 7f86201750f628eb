use vstd::prelude::*;
use vstd::utf8::{decode_utf8, encode_utf8_decode_utf8, valid_utf8};
use crate::handler::Handler;
use crate::options::{boxed, boxed_handler, Options};
use crate::runtime::Runtime;
use crate::text::{c_compatible, str_from_utf8, InvalidUtf8};

verus! {

/// The identity of a native window, as the platform layer handed it out.
#[derive(Clone, Copy, Debug, PartialEq, Eq, Structural)]
pub struct RawWindow {
    pub id: usize,
}

/// The settings that the platform layer gets when it creates a window.
#[derive(Clone, Copy, Debug, PartialEq, Eq, Structural)]
pub struct NativeOptions {
    pub initial_width: usize,
    pub initial_height: usize,
    pub minimum_width: usize,
    pub minimum_height: usize,
    pub borderless: bool,
    pub debug: bool,
}

/// A call into the platform layer, which the caller of this crate makes.
#[derive(Clone, Debug, PartialEq, Eq)]
pub enum NativeCall {
    /// Evaluate JavaScript in the window.
    Eval { window: RawWindow, script: String },
    /// Load HTML into the window.
    Load { window: RawWindow, html: String },
    /// Set the window's title.
    Title { window: RawWindow, title: String },
    /// Focus the window above the other windows.
    Focus { window: RawWindow },
    /// Close the window.
    Close { window: RawWindow },
    /// Terminate the application.
    Exit,
    /// Hand a function to the main thread.
    Dispatch,
}

/// The platform settings that `opts` asks for.
pub open spec fn native_options_of(opts: Options) -> NativeOptions {
    NativeOptions {
        initial_width: opts.initial_width,
        initial_height: opts.initial_height,
        minimum_width: opts.minimum_width,
        minimum_height: opts.minimum_height,
        borderless: opts.borderless,
        debug: opts.debug,
    }
}

/// The platform settings carry every option field unchanged.
pub proof fn lemma_native_options_carry_each_field(opts: Options)
    ensures
        native_options_of(opts).initial_width == opts.initial_width,
        native_options_of(opts).initial_height == opts.initial_height,
        native_options_of(opts).minimum_width == opts.minimum_width,
        native_options_of(opts).minimum_height == opts.minimum_height,
        native_options_of(opts).borderless == opts.borderless,
        native_options_of(opts).debug == opts.debug,
{
}

/// A window, which may or may not be open.
#[derive(Clone, Copy, Debug)]
pub struct Window {
    raw: Option<RawWindow>,
}

impl View for Window {
    type V = Option<RawWindow>;

    /// The native window behind this one, once the platform layer created it.
    closed spec fn view(&self) -> Option<RawWindow> {
        self.raw
    }
}

/// The handler of a window that was made without one: the one that
/// ignores every message.
fn ignore_messages() -> (h: Option<Box<dyn Handler>>)
    ensures
        h == Some(boxed_handler(())),
{
    boxed(())
}

impl Window {
    /// Make a new window with the given options. The window is not backed
    /// by a native window until [`Window::opened`] reports one; the
    /// platform layer is asked to create one with the returned settings and
    /// handler (the given one, or one that ignores every message).
    pub fn new(runtime: &Runtime, opts: Options) -> (res: (Window, NativeOptions, Option<Box<dyn Handler>>))
        requires
            runtime.is_started(),
        ensures
            res.0@ is None,
            res.1 == native_options_of(opts),
            res.1.initial_width == opts.initial_width,
            res.1.initial_height == opts.initial_height,
            res.1.minimum_width == opts.minimum_width,
            res.1.minimum_height == opts.minimum_height,
            res.1.borderless == opts.borderless,
            res.1.debug == opts.debug,
            opts.handler is Some ==> res.2 == opts.handler,
            opts.handler is None ==> res.2 == Some(boxed_handler(())),
    {
        let options = NativeOptions {
            initial_width: opts.initial_width,
            initial_height: opts.initial_height,
            minimum_width: opts.minimum_width,
            minimum_height: opts.minimum_height,
            borderless: opts.borderless,
            debug: opts.debug,
        };
        let handler = match opts.handler {
            Some(h) => Some(h),
            None => ignore_messages(),
        };
        (Window { raw: None }, options, handler)
    }

    /// Make a new window with the default options and the given handler.
    pub fn with_handler<H: Handler>(runtime: &Runtime, handler: H) -> (res: (Window, NativeOptions, Option<Box<dyn Handler>>))
        requires
            runtime.is_started(),
        ensures
            res.0@ is None,
            res.1 == (NativeOptions {
                initial_width: 640,
                initial_height: 480,
                minimum_width: 480,
                minimum_height: 360,
                borderless: false,
                debug: false,
            }),
            res.2 == Some(boxed_handler(handler)),
    {
        Self::new(runtime, Options { handler: boxed(handler), ..Default::default() })
    }

    /// A window that no native window backs.
    pub fn unopened() -> (w: Window)
        ensures
            w@ is None,
    {
        Window { raw: None }
    }

    /// The platform layer created the native window `raw` for this window.
    pub fn opened(&mut self, raw: RawWindow)
        ensures
            final(self)@ == Some(raw),
    {
        self.raw = Some(raw);
    }

    /// The platform layer closed the native window behind this one: the
    /// window is no longer open.
    pub fn closed(&mut self)
        ensures
            final(self)@ is None,
    {
        self.raw = None;
    }

    /// The native window behind this one, if there is one.
    pub fn raw(&self) -> (r: Option<RawWindow>)
        ensures
            r == self@,
    {
        self.raw
    }

    /// Evaluate the given JavaScript asynchronously: the call to make, if
    /// the window is open.
    pub fn eval(&self, script: String) -> (call: Option<NativeCall>)
        requires
            self@ is Some ==> c_compatible(script@),
        ensures
            call == match self@ {
                Some(w) => Some(NativeCall::Eval { window: w, script }),
                None => None,
            },
    {
        match self.raw {
            Some(w) => Some(NativeCall::Eval { window: w, script }),
            None => None,
        }
    }
    /// Load the given HTML asynchronously: the call to make, if the window
    /// is open.
    pub fn load(&self, html: String) -> (call: Option<NativeCall>)
        requires
            self@ is Some ==> c_compatible(html@),
        ensures
            call == match self@ {
                Some(w) => Some(NativeCall::Load { window: w, html }),
                None => None,
            },
    {
        match self.raw {
            Some(w) => Some(NativeCall::Load { window: w, html }),
            None => None,
        }
    }

    /// Set this window's title to the given string: the call to make, if
    /// the window is open.
    pub fn title(&self, title: String) -> (call: Option<NativeCall>)
        requires
            self@ is Some ==> c_compatible(title@),
        ensures
            call == match self@ {
                Some(w) => Some(NativeCall::Title { window: w, title }),
                None => None,
            },
    {
        match self.raw {
            Some(w) => Some(NativeCall::Title { window: w, title }),
            None => None,
        }
    }

    /// Focus this window above the other windows: the call to make, if the
    /// window is open.
    pub fn focus(&self) -> (call: Option<NativeCall>)
        ensures
            call == match self@ {
                Some(w) => Some(NativeCall::Focus { window: w }),
                None => None,
            },
    {
        match self.raw {
            Some(w) => Some(NativeCall::Focus { window: w }),
            None => None,
        }
    }

    /// Close this window: the call to make, if the window is open.
    pub fn close(&self) -> (call: Option<NativeCall>)
        ensures
            call == match self@ {
                Some(w) => Some(NativeCall::Close { window: w }),
                None => None,
            },
    {
        match self.raw {
            Some(w) => Some(NativeCall::Close { window: w }),
            None => None,
        }
    }
}

/// The web page sent a message, `bytes`, the bytes of a C string, to `window`: if
/// they are valid UTF-8 the handler takes the text, once; otherwise the
/// message is refused and the handler is left as it was.
pub fn message<H: Handler>(handler: &mut H, window: Window, bytes: &[u8]) -> (res: Result<(), InvalidUtf8>)
    ensures
        res is Ok <==> valid_utf8(bytes@),
        res is Ok ==> final(handler).took(old(handler).state(), window, decode_utf8(bytes@)),
        res is Err ==> *final(handler) == *old(handler),
{
    match str_from_utf8(bytes) {
        Ok(text) => {
            proof {
                encode_utf8_decode_utf8(text@);
            }
            handler.handle(window, text);
            Ok(())
        },
        Err(e) => Err(e),
    }
}

} // verus!
