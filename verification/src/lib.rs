//! Windows that are web views: the verified core.
//!
//! The platform layer (the native web view) is driven from outside this
//! crate: the functions here decide what it is asked to do, as values of
//! [`NativeCall`], and are told what it reported back.
pub mod builder;
pub mod handler;
pub mod options;
pub mod runtime;
pub mod text;
pub mod window;

pub use handler::Handler;
pub use options::Options;
pub use runtime::Runtime;
pub use window::{NativeCall, NativeOptions, RawWindow, Window};
