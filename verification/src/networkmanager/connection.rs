//! The connection-profile surface of the network daemon's settings
//! service.

use vstd::prelude::*;

use crate::fault::BusFault;
use crate::networkmanager::config::{Ipv4Config, Ipv6Config};
use crate::networkmanager::enums::{active_connection_state_of, ActiveConnectionState};
use crate::networkmanager::flags::{ActivationStateFlags, ACTIVATION_ALL};

verus! {

/// A bound connection-profile surface: the object path of one profile.
pub struct Connection {
    path: String,
}

impl View for Connection {
    type V = Seq<char>;

    closed spec fn view(&self) -> Seq<char> {
        self.path@
    }
}

impl DeepView for Connection {
    type V = Seq<char>;

    open spec fn deep_view(&self) -> Seq<char> {
        self@
    }
}

impl Connection {
    /// Binds the profile at the given object path.
    pub fn new(path: String) -> (r: Connection)
        ensures
            r@ == path@,
    {
        Connection { path }
    }

    /// The object path this surface is bound to.
    pub fn path(&self) -> (r: &str)
        ensures
            r@ == self@,
    {
        self.path.as_str()
    }

    /// Binds the profile's devices from the paths the daemon reported,
    /// in order.
    pub fn devices(&self, paths: Vec<String>) -> (r: Vec<
        crate::networkmanager::device::Device,
    >)
        ensures
            r.deep_view() == paths.deep_view(),
    {
        crate::networkmanager::active_connection::devices_from_paths(paths)
    }

    /// Binds the profile's address configuration from the path the
    /// daemon reported.
    pub fn ip4_config(&self, path: String) -> (r: Ipv4Config)
        ensures
            r@ == path@,
    {
        Ipv4Config::new(path)
    }

    /// Binds the profile's address configuration from the path the
    /// daemon reported.
    pub fn ip6_config(&self, path: String) -> (r: Ipv6Config)
        ensures
            r@ == path@,
    {
        Ipv6Config::new(path)
    }

    /// Types the profile's lifecycle state from a raw code reading.
    pub fn state(&self, raw: Result<u32, BusFault>) -> (r: Result<
        ActiveConnectionState,
        BusFault,
    >)
        ensures
            match raw {
                Ok(code) => r == Ok::<ActiveConnectionState, BusFault>(
                    active_connection_state_of(code),
                ),
                Err(e) => r == Err::<ActiveConnectionState, BusFault>(e),
            },
    {
        match raw {
            Ok(code) => Ok(ActiveConnectionState::from(code)),
            Err(e) => Err(e),
        }
    }

    /// Decodes the profile's activation-state bits from a raw reading.
    pub fn state_flags(&self, raw: Result<u32, BusFault>) -> (r: Result<
        ActivationStateFlags,
        BusFault,
    >)
        ensures
            match raw {
                Ok(bits) => r matches Ok(f) && f.bits == bits & ACTIVATION_ALL,
                Err(e) => r == Err::<ActivationStateFlags, BusFault>(e),
            },
    {
        match raw {
            Ok(bits) => Ok(ActivationStateFlags::from_bits_truncate(bits)),
            Err(e) => Err(e),
        }
    }
}

} // verus!
