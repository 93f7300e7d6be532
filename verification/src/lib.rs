//! The native side of a small desktop shell: a greeter, a guard that keeps
//! the main window open against the platform's close gestures, and the
//! lifecycle that ties startup, running and exit together.
//!
//! Everything here is a pure decision on plain values. A host event loop
//! is expected to feed events in and to carry the returned actions out.

pub mod greeting;
pub mod lifecycle;
pub mod window;

pub use greeting::greet;
