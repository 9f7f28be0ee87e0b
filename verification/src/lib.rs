//! A safety layer over a handle-based windowing protocol: a display
//! connection, windows created on it, drawing contexts bound to those
//! windows, and a blocking event-dispatch loop.
//!
//! Every native call the library decides to make is recorded against the
//! [`backend::Backend`] boundary, so that resource lifetimes (each handle
//! released exactly once, dependents before their owners) and the event
//! protocol are stated and machine-checked rather than assumed. The real
//! protocol implementation lives outside the library; an instrumented
//! in-memory backend ([`fake::FakeBackend`]) implements the same boundary
//! for tests.

use vstd::prelude::*;

pub mod backend;
pub mod config;
pub mod display;
pub mod event;
pub mod fake;
pub mod session;
pub mod shape;
pub mod window;

verus! {

/// The failures a construction call can report. Construction is the only
/// fallible operation in the library; every failure is surfaced as a value
/// to the direct caller.
#[derive(Clone, Copy, PartialEq, Eq, Structural, Debug)]
pub enum Error {
    /// The native session could not be opened.
    ConnectionFailed,
    /// A window could not be allocated.
    SurfaceCreationFailed,
    /// A drawing context could not be allocated.
    DrawContextCreationFailed,
}

impl Error {
    /// A fixed human-readable description of the failure.
    pub fn describe(&self) -> (r: &'static str)
        ensures
            self is ConnectionFailed ==> r@ == "Failed to open display"@,
            self is SurfaceCreationFailed ==> r@ == "Failed to create window"@,
            self is DrawContextCreationFailed ==> r@ == "Failed to create GC"@,
    {
        match self {
            Error::ConnectionFailed => "Failed to open display",
            Error::SurfaceCreationFailed => "Failed to create window",
            Error::DrawContextCreationFailed => "Failed to create GC",
        }
    }
}

} // verus!
