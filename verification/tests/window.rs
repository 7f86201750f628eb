use std::cell::RefCell;
use std::rc::Rc;
use tether::text::InvalidUtf8;
use tether::window::message;
use tether::{Handler, NativeCall, RawWindow, Runtime, Window};

struct Recorder(Rc<RefCell<Vec<(Option<RawWindow>, String)>>>);

impl Handler for Recorder {
    fn handle(&mut self, window: Window, text: &str) {
        self.0.borrow_mut().push((window.raw(), text.to_string()));
    }
}

fn fresh_window() -> Window {
    let mut runtime = Runtime::new();
    runtime.start();
    Window::with_handler(&runtime, ()).0
}

#[test]
fn unopened_window_asks_nothing_of_the_platform() {
    let w = fresh_window();
    assert_eq!(w.eval("x = 1".to_string()), None);
    assert_eq!(w.load("<p>hi</p>".to_string()), None);
    assert_eq!(w.title("Hello".to_string()), None);
    assert_eq!(w.focus(), None);
    assert_eq!(w.close(), None);
}

#[test]
fn unopened_window_accepts_strings_with_nul() {
    let w = fresh_window();
    assert_eq!(w.eval("a\0b".to_string()), None);
}

#[test]
fn opened_window_addresses_its_native_window() {
    let mut w = fresh_window();
    let raw = RawWindow { id: 7 };
    w.opened(raw);
    assert_eq!(w.raw(), Some(raw));
    assert_eq!(
        w.eval("document.body.textContent = 'Tick';".to_string()),
        Some(NativeCall::Eval { window: raw, script: "document.body.textContent = 'Tick';".to_string() })
    );
    assert_eq!(
        w.load("<p>Hello</p>".to_string()),
        Some(NativeCall::Load { window: raw, html: "<p>Hello</p>".to_string() })
    );
    assert_eq!(
        w.title("Hello, world!".to_string()),
        Some(NativeCall::Title { window: raw, title: "Hello, world!".to_string() })
    );
    assert_eq!(w.focus(), Some(NativeCall::Focus { window: raw }));
    assert_eq!(w.close(), Some(NativeCall::Close { window: raw }));
}

#[test]
fn clones_address_the_same_native_window() {
    let mut w = fresh_window();
    w.opened(RawWindow { id: 3 });
    let c = w.clone();
    assert_eq!(c.focus(), w.focus());
}

#[test]
fn reopening_replaces_the_native_window() {
    let mut w = fresh_window();
    w.opened(RawWindow { id: 1 });
    w.opened(RawWindow { id: 2 });
    assert_eq!(w.close(), Some(NativeCall::Close { window: RawWindow { id: 2 } }));
}

#[test]
fn valid_message_reaches_the_handler() {
    let seen = Rc::new(RefCell::new(Vec::new()));
    let mut h = Recorder(seen.clone());
    let mut w = fresh_window();
    w.opened(RawWindow { id: 9 });
    assert_eq!(message(&mut h, w, "Bzzz. \u{e9}".as_bytes()), Ok(()));
    assert_eq!(*seen.borrow(), vec![(Some(RawWindow { id: 9 }), "Bzzz. \u{e9}".to_string())]);
}

#[test]
fn empty_message_reaches_the_handler() {
    let seen = Rc::new(RefCell::new(Vec::new()));
    let mut h = Recorder(seen.clone());
    assert_eq!(message(&mut h, fresh_window(), b""), Ok(()));
    assert_eq!(*seen.borrow(), vec![(None, String::new())]);
}

#[test]
fn invalid_message_is_refused() {
    let seen = Rc::new(RefCell::new(Vec::new()));
    let mut h = Recorder(seen.clone());
    assert_eq!(message(&mut h, fresh_window(), &[0x66, 0xff, 0x6f]), Err(InvalidUtf8));
    // An overlong encoding of '/' and a lone surrogate are refused too.
    assert_eq!(message(&mut h, fresh_window(), &[0xc0, 0xaf]), Err(InvalidUtf8));
    assert_eq!(message(&mut h, fresh_window(), &[0xed, 0xa0, 0x80]), Err(InvalidUtf8));
    assert!(seen.borrow().is_empty());
}

#[test]
fn closed_window_asks_nothing_of_the_platform() {
    let mut w = fresh_window();
    w.opened(RawWindow { id: 4 });
    w.closed();
    assert_eq!(w.raw(), None);
    assert_eq!(w.eval("x = 1".to_string()), None);
    assert_eq!(w.focus(), None);
    assert_eq!(w.close(), None);
}

#[test]
fn boxed_handler_gets_the_message() {
    let seen = Rc::new(RefCell::new(Vec::new()));
    let mut h: Box<dyn Handler> = Box::new(Recorder(seen.clone()));
    assert_eq!(message(&mut h, fresh_window(), b"in a box"), Ok(()));
    assert_eq!(message(&mut h, fresh_window(), &[0xff]), Err(InvalidUtf8));
    assert_eq!(*seen.borrow(), vec![(None, "in a box".to_string())]);
}
