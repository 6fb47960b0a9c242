//! The error type of the media-player module.
//!
//! Three kinds of failure are told apart: text that does not name a known
//! protocol keyword, a value whose shape does not match the requested
//! reading, and faults reported by the connection.  The two `From`
//! conversions unwrap the standard-error nesting exactly as the
//! connection library's own error type nests it.

use vstd::prelude::*;

use crate::fault::{BusFault, FdoFault};
use crate::wire::WireValue;

verus! {

/// The kind of value a reading asked for or found.
#[derive(Clone, Copy, Debug, PartialEq, Eq, Structural)]
pub enum ValueKind {
    Str,
    Double,
    Int,
    UInt,
    Bool,
    Array,
    Dict,
    Unsupported,
    /// A string expected to carry an RFC 3339 date.
    DateText,
}

/// A failure of the media-player module.
#[derive(Debug)]
pub enum Error {
    /// Text did not name any variant of the expected keyword vocabulary.
    InvalidEnum { got: String, expected: Vec<&'static str> },
    /// A value was read as one kind but stored as another.
    IncorrectVariant { wanted: ValueKind, actual: ValueKind },
    /// A wire value had the wrong shape for the requested conversion.
    IncorrectValue { wanted: ValueKind, actual: WireValue },
    /// A connection-level fault.
    Zbus(BusFault),
    /// A standard `org.freedesktop.DBus` error reply.
    Fdo(FdoFault),
}

/// What converting a connection fault into an [`Error`] yields: a nested
/// standard error reply is unwrapped one level.
pub open spec fn error_from_bus(e: BusFault) -> Error {
    match e {
        BusFault::Fdo(f) => Error::Fdo(*f),
        _ => Error::Zbus(e),
    }
}

/// What converting a standard error reply into an [`Error`] yields: a
/// nested connection fault is unwrapped one level.
pub open spec fn error_from_fdo(e: FdoFault) -> Error {
    match e {
        FdoFault::ZBus(b) => Error::Zbus(*b),
        _ => Error::Fdo(e),
    }
}

impl From<BusFault> for Error {
    fn from(e: BusFault) -> (r: Error) {
        match e {
            BusFault::Fdo(f) => Error::Fdo(*f),
            _ => Error::Zbus(e),
        }
    }
}

impl vstd::std_specs::convert::FromSpecImpl<BusFault> for Error {
    open spec fn obeys_from_spec() -> bool {
        true
    }

    open spec fn from_spec(e: BusFault) -> Error {
        error_from_bus(e)
    }
}

impl From<FdoFault> for Error {
    fn from(e: FdoFault) -> (r: Error) {
        match e {
            FdoFault::ZBus(b) => Error::Zbus(*b),
            _ => Error::Fdo(e),
        }
    }
}

impl vstd::std_specs::convert::FromSpecImpl<FdoFault> for Error {
    open spec fn obeys_from_spec() -> bool {
        true
    }

    open spec fn from_spec(e: FdoFault) -> Error {
        error_from_fdo(e)
    }
}

} // verus!
