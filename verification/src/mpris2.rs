//! Typed client surface for the media-player remote-control interfaces.
//!
//! Every function here takes the raw outcome of a remote read or call as a
//! plain value and decides what the caller sees; the asynchronous transport
//! that performs the round trip lives outside the library and hands the
//! outcomes in.

pub mod enumerator;
pub mod error;
pub mod media_player;
pub mod metadata;
pub mod player;
pub mod playlists;
pub mod track;
pub mod track_list;

use vstd::prelude::*;

use crate::fault::BusFault;
use self::error::Error;

verus! {

/// What [`handle_optional`] yields for a given outcome.
pub open spec fn handle_optional_spec<T>(input: Result<T, BusFault>) -> Result<Option<T>, Error> {
    match input {
        Ok(v) => Ok(Some(v)),
        Err(f) => if f.is_not_supported() {
            Ok(None)
        } else {
            Err(error::error_from_bus(f))
        },
    }
}

/// Maps a raw call outcome onto the capability-optional convention: a
/// successful value is `Ok(Some(..))`, the standard "not supported" reply
/// is `Ok(None)`, and every other fault stays an error.
pub fn handle_optional<T>(input: Result<T, BusFault>) -> (r: Result<Option<T>, Error>)
    ensures
        r == handle_optional_spec(input),
{
    match input {
        Ok(v) => Ok(Some(v)),
        Err(f) => {
            if match &f {
                BusFault::Fdo(inner) => matches!(&**inner, crate::fault::FdoFault::NotSupported(_)),
                _ => false,
            } {
                Ok(None)
            } else {
                Err(Error::from(f))
            }
        }
    }
}

} // verus!
