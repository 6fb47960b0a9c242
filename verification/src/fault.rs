//! Plain-data model of the faults a bus call can produce.
//!
//! The connection library distinguishes transport-level errors from the
//! standard `org.freedesktop.DBus` error replies, and nests the one inside
//! the other.  The decision logic of this crate only ever inspects that
//! nesting and the "not supported" reply; everything else is carried as an
//! opaque description.  The transport layer maps the library's error values
//! onto these variants one constructor at a time.

use vstd::prelude::*;

verus! {

/// A failure reported by the connection itself.
#[derive(Debug)]
pub enum BusFault {
    /// A standard `org.freedesktop.DBus` error reply, boxed by the transport.
    Fdo(Box<FdoFault>),
    /// The remote object does not implement the requested interface.
    InterfaceNotFound,
    /// Any other connection-level failure, with its description.
    Other(String),
}

/// A standard `org.freedesktop.DBus` error reply.
#[derive(Debug)]
pub enum FdoFault {
    /// The remote service does not support the requested member.
    NotSupported(String),
    /// A connection-level failure wrapped inside the reply error type.
    ZBus(Box<BusFault>),
    /// Any other standard error reply, with its name and description.
    Other(String),
}

impl BusFault {
    /// Whether this fault is the standard "not supported" reply.
    pub open spec fn is_not_supported(&self) -> bool {
        match self {
            BusFault::Fdo(f) => (**f) is NotSupported,
            _ => false,
        }
    }
}

} // verus!
