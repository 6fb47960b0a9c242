//! The active-connection surface of the network daemon.

use vstd::prelude::*;

use crate::fault::BusFault;
use crate::networkmanager::config::{Ipv4Config, Ipv6Config};
use crate::networkmanager::enums::{active_connection_state_of, ActiveConnectionState};
use crate::networkmanager::flags::{ActivationStateFlags, ACTIVATION_ALL};

verus! {

broadcast use vstd::std_specs::vec::group_vec_axioms, vstd::seq::group_seq_axioms;

/// A bound active-connection surface: the object path of one active
/// connection.
pub struct ActiveConnection {
    path: String,
}

impl View for ActiveConnection {
    type V = Seq<char>;

    closed spec fn view(&self) -> Seq<char> {
        self.path@
    }
}

impl DeepView for ActiveConnection {
    type V = Seq<char>;

    open spec fn deep_view(&self) -> Seq<char> {
        self@
    }
}

impl ActiveConnection {
    /// Binds the active connection at the given object path.
    pub fn new(path: String) -> (r: ActiveConnection)
        ensures
            r@ == path@,
    {
        ActiveConnection { path }
    }

    /// The object path this surface is bound to.
    pub fn path(&self) -> (r: &str)
        ensures
            r@ == self@,
    {
        self.path.as_str()
    }

    /// Binds the connection's devices from the paths the daemon
    /// reported, in order.
    pub fn devices(&self, paths: Vec<String>) -> (r: Vec<
        crate::networkmanager::device::Device,
    >)
        ensures
            r.deep_view() == paths.deep_view(),
    {
        devices_from_paths(paths)
    }

    /// Binds the connection's address configuration from the path the
    /// daemon reported.
    pub fn ip4_config(&self, path: String) -> (r: Ipv4Config)
        ensures
            r@ == path@,
    {
        Ipv4Config::new(path)
    }

    /// Binds the connection's address configuration from the path the
    /// daemon reported.
    pub fn ip6_config(&self, path: String) -> (r: Ipv6Config)
        ensures
            r@ == path@,
    {
        Ipv6Config::new(path)
    }

    /// Types the connection's lifecycle state from a raw code reading.
    pub fn state(&self, raw: Result<u32, BusFault>) -> (r: Result<
        ActiveConnectionState,
        BusFault,
    >)
        ensures
            match raw {
                Ok(code) => r == Ok::<ActiveConnectionState, BusFault>(
                    active_connection_state_of(code),
                ),
                Err(e) => r == Err::<ActiveConnectionState, BusFault>(e),
            },
    {
        match raw {
            Ok(code) => Ok(ActiveConnectionState::from(code)),
            Err(e) => Err(e),
        }
    }

    /// Decodes the connection's activation-state bits from a raw
    /// reading.
    pub fn state_flags(&self, raw: Result<u32, BusFault>) -> (r: Result<
        ActivationStateFlags,
        BusFault,
    >)
        ensures
            match raw {
                Ok(bits) => r matches Ok(f) && f.bits == bits & ACTIVATION_ALL,
                Err(e) => r == Err::<ActivationStateFlags, BusFault>(e),
            },
    {
        match raw {
            Ok(bits) => Ok(ActivationStateFlags::from_bits_truncate(bits)),
            Err(e) => Err(e),
        }
    }
}

/// Binds one device per listed path, in order.
pub(crate) fn devices_from_paths(paths: Vec<String>) -> (r: Vec<
    crate::networkmanager::device::Device,
>)
    ensures
        r.deep_view() == paths.deep_view(),
{
    let mut out: Vec<crate::networkmanager::device::Device> = Vec::new();
    let n = paths.len();
    let mut i: usize = 0;
    while i < n
        invariant
            0 <= i <= n,
            n == paths@.len(),
            paths.deep_view().len() == n,
            forall|j: int| 0 <= j < n ==> #[trigger] paths.deep_view()[j] == paths@[j]@,
            out@.len() == i,
            forall|j: int| 0 <= j < i ==> (#[trigger] out@[j])@ == paths@[j]@,
        decreases n - i,
    {
        out.push(crate::networkmanager::device::Device::new(paths[i].clone()));
        i = i + 1;
    }
    proof {
        assert(out.deep_view() =~= paths.deep_view());
    }
    out
}

} // verus!
