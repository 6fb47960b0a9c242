//! The root surface of the network daemon.

use vstd::prelude::*;

use crate::fault::BusFault;
use crate::networkmanager::active_connection::ActiveConnection;
use crate::networkmanager::device::Device;
use crate::networkmanager::enums::{nm_connectivity_of, nm_state_of, NmConnectivityState, NmState};

verus! {

broadcast use vstd::std_specs::vec::group_vec_axioms, vstd::seq::group_seq_axioms;

/// The bound root surface of the daemon.
pub struct NetworkManager {}

impl NetworkManager {
    /// Binds the daemon's root surface.
    pub fn new() -> (r: NetworkManager) {
        NetworkManager {}
    }

    /// Binds the active connection the daemon reported for an
    /// activation request.
    pub fn activate_connection_by_paths(&self, active_connection_path: String) -> (r:
        ActiveConnection)
        ensures
            r@ == active_connection_path@,
    {
        ActiveConnection::new(active_connection_path)
    }

    /// Binds the daemon's active connections from the paths it
    /// reported, in order.
    pub fn active_connections(&self, paths: Vec<String>) -> (r: Vec<ActiveConnection>)
        ensures
            r.deep_view() == paths.deep_view(),
    {
        let mut out: Vec<ActiveConnection> = Vec::new();
        let n = paths.len();
        let mut i: usize = 0;
        while i < n
            invariant
                0 <= i <= n,
                n == paths@.len(),
                paths.deep_view().len() == n,
                forall|j: int| 0 <= j < n ==> #[trigger] paths.deep_view()[j] == paths@[j]@,
                out@.len() == i,
                forall|j: int| 0 <= j < i ==> (#[trigger] out@[j])@ == paths@[j]@,
            decreases n - i,
        {
            out.push(ActiveConnection::new(paths[i].clone()));
            i = i + 1;
        }
        proof {
            assert(out.deep_view() =~= paths.deep_view());
        }
        out
    }

    /// Types the daemon's connectivity judgement from a raw code
    /// reading.
    pub fn connectivity(&self, raw: Result<u32, BusFault>) -> (r: Result<
        NmConnectivityState,
        BusFault,
    >)
        ensures
            match raw {
                Ok(code) => r == Ok::<NmConnectivityState, BusFault>(nm_connectivity_of(code)),
                Err(e) => r == Err::<NmConnectivityState, BusFault>(e),
            },
    {
        match raw {
            Ok(code) => Ok(NmConnectivityState::from(code)),
            Err(e) => Err(e),
        }
    }

    /// Types a freshly probed connectivity judgement from a raw code
    /// reading.
    pub fn check_connectivity(&self, raw: Result<u32, BusFault>) -> (r: Result<
        NmConnectivityState,
        BusFault,
    >)
        ensures
            match raw {
                Ok(code) => r == Ok::<NmConnectivityState, BusFault>(nm_connectivity_of(code)),
                Err(e) => r == Err::<NmConnectivityState, BusFault>(e),
            },
    {
        match raw {
            Ok(code) => Ok(NmConnectivityState::from(code)),
            Err(e) => Err(e),
        }
    }

    /// Binds the daemon's devices from the paths it reported, in order.
    pub fn devices(&self, paths: Vec<String>) -> (r: Vec<Device>)
        ensures
            r.deep_view() == paths.deep_view(),
    {
        crate::networkmanager::active_connection::devices_from_paths(paths)
    }

    /// Binds every device the daemon reported, placed and unplaced, in
    /// order.
    pub fn all_devices(&self, paths: Vec<String>) -> (r: Vec<Device>)
        ensures
            r.deep_view() == paths.deep_view(),
    {
        crate::networkmanager::active_connection::devices_from_paths(paths)
    }

    /// Types the daemon's overall state from a raw code reading.
    pub fn state(&self, raw: Result<u32, BusFault>) -> (r: Result<NmState, BusFault>)
        ensures
            match raw {
                Ok(code) => r == Ok::<NmState, BusFault>(nm_state_of(code)),
                Err(e) => r == Err::<NmState, BusFault>(e),
            },
    {
        match raw {
            Ok(code) => Ok(NmState::from(code)),
            Err(e) => Err(e),
        }
    }

    /// Binds the daemon's settings surface.
    pub fn settings(&self) -> (r: crate::networkmanager::settings::NetworkManagerSettings) {
        crate::networkmanager::settings::NetworkManagerSettings::new()
    }
}

} // verus!
