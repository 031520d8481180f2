//! Dynamically typed values that can always be inspected.
//!
//! A handle (`&dyn AnyDebug`, `&mut dyn AnyDebug`, `Box<dyn AnyDebug>`) holds a
//! value of any type that is `'static` and `Debug`. The type can be tested and
//! the value recovered, and the value can always be formatted.

pub mod base;
pub mod dynamic;
pub mod erased;
pub mod laws;
pub mod send;
pub mod send_sync;

pub use base::AnyDebug;
pub use dynamic::Dynamic;
pub use dynamic::Typed;
pub use send::AnyDebugSend;
pub use send_sync::AnyDebugSendSync;
