use tether::builder::{Options, Settings, Size};

fn nothing() -> Settings {
    Settings {
        initial_size: None,
        minimum_size: None,
        fullscreen: false,
        maximized: false,
        borderless: false,
        debug: false,
    }
}

#[test]
fn new_asks_for_nothing() {
    assert_eq!(Options::new().settings(), nothing());
}

#[test]
fn each_setter_sets_its_own_setting() {
    let o = Options::new().initial_size(800, 600);
    assert_eq!(o.settings(), Settings { initial_size: Some(Size { width: 800, height: 600 }), ..nothing() });
    let o = Options::new().minimum_size(320, 200);
    assert_eq!(o.settings(), Settings { minimum_size: Some(Size { width: 320, height: 200 }), ..nothing() });
    assert_eq!(Options::new().fullscreen().settings(), Settings { fullscreen: true, ..nothing() });
    assert_eq!(Options::new().maximized().settings(), Settings { maximized: true, ..nothing() });
    assert_eq!(Options::new().borderless().settings(), Settings { borderless: true, ..nothing() });
    assert_eq!(Options::new().debug().settings(), Settings { debug: true, ..nothing() });
}

#[test]
fn later_size_wins_and_order_does_not_matter() {
    let a = Options::new().initial_size(1, 2).minimum_size(3, 4).initial_size(5, 6).debug();
    let b = Options::new().debug().minimum_size(3, 4).initial_size(5, 6);
    assert_eq!(a.settings(), b.settings());
    assert_eq!(a.settings().initial_size, Some(Size { width: 5, height: 6 }));
}

#[test]
fn handler_keeps_the_settings() {
    let o = Options::new().fullscreen().initial_size(10, 20);
    let before = o.settings();
    let o = o.handler(());
    assert_eq!(o.settings(), before);
}

#[test]
fn build_gives_a_window_not_yet_open() {
    let w = Options::new().maximized().borderless().build();
    assert_eq!(w.raw(), None);
    assert_eq!(w.focus(), None);
}
