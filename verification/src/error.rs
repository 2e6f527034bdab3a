//! Error values returned by the library.

use vstd::prelude::*;

verus! {

/// The ways in which an operation of the library can fail.
#[derive(Debug, Clone, Copy, PartialEq, Eq)]
pub enum NDIError {
    /// The machine cannot run the native library.
    NotSupported,
    /// A native integer tag matched no variant of the named enum.
    InvalidEnum(i32, &'static str),
    /// The native library handed back no receiver instance.
    RecvCreateError,
    /// The native library handed back no finder instance.
    FindCreateError,
    /// The native library handed back no sender instance.
    SendCreateError,
    /// No source was found before the time ran out.
    FindSourcesTimeout,
    /// The frame or handle was given back before.
    AlreadyReleased,
    /// A native string is not valid UTF-8.
    InvalidUtf8,
    /// A text holds a zero byte, so the native library cannot take it.
    InteriorNul,
}

} // verus!
