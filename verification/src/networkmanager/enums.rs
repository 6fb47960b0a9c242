//! The daemon's numeric state codes, as typed values.
//!
//! Every reading maps an unsigned code to its named state; codes the
//! daemon's published interface does not define map to `Unknown`.

use vstd::prelude::*;

verus! {

/// The daemon's overall state.
#[derive(Default, Debug, Clone, Copy, PartialEq, Eq, Structural)]
pub enum NmState {
    Asleep,
    Disconnected,
    Disconnecting,
    Connecting,
    ConnectedLocal,
    ConnectedSite,
    ConnectedGlobal,
    #[default]
    Unknown,
}

/// The state a code names.
pub open spec fn nm_state_of(state: u32) -> NmState {
    match state {
        10u32 => NmState::Asleep,
        20u32 => NmState::Disconnected,
        30u32 => NmState::Disconnecting,
        40u32 => NmState::Connecting,
        50u32 => NmState::ConnectedLocal,
        60u32 => NmState::ConnectedSite,
        70u32 => NmState::ConnectedGlobal,
        _ => NmState::Unknown,
    }
}

impl From<u32> for NmState {
    fn from(state: u32) -> (r: NmState) {
        match state {
            10 => NmState::Asleep,
            20 => NmState::Disconnected,
            30 => NmState::Disconnecting,
            40 => NmState::Connecting,
            50 => NmState::ConnectedLocal,
            60 => NmState::ConnectedSite,
            70 => NmState::ConnectedGlobal,
            _ => NmState::Unknown,
        }
    }
}

impl vstd::std_specs::convert::FromSpecImpl<u32> for NmState {
    open spec fn obeys_from_spec() -> bool {
        true
    }

    open spec fn from_spec(state: u32) -> NmState {
        nm_state_of(state)
    }
}

/// The daemon's connectivity judgement.
#[derive(Default, Debug, Clone, Copy, PartialEq, Eq, Structural)]
pub enum NmConnectivityState {
    NoConnectivity,
    Portal,
    Loss,
    Full,
    #[default]
    Unknown,
}

/// The connectivity judgement a code names.
pub open spec fn nm_connectivity_of(state: u32) -> NmConnectivityState {
    match state {
        1u32 => NmConnectivityState::NoConnectivity,
        2u32 => NmConnectivityState::Portal,
        3u32 => NmConnectivityState::Loss,
        4u32 => NmConnectivityState::Full,
        _ => NmConnectivityState::Unknown,
    }
}

impl From<u32> for NmConnectivityState {
    fn from(state: u32) -> (r: NmConnectivityState) {
        match state {
            1 => NmConnectivityState::NoConnectivity,
            2 => NmConnectivityState::Portal,
            3 => NmConnectivityState::Loss,
            4 => NmConnectivityState::Full,
            _ => NmConnectivityState::Unknown,
        }
    }
}

impl vstd::std_specs::convert::FromSpecImpl<u32> for NmConnectivityState {
    open spec fn obeys_from_spec() -> bool {
        true
    }

    open spec fn from_spec(state: u32) -> NmConnectivityState {
        nm_connectivity_of(state)
    }
}

/// The hardware kind of a device.
#[derive(Default, Debug, Clone, Copy, PartialEq, Eq, Structural)]
pub enum DeviceType {
    Ethernet,
    Wifi,
    Bluetooth,
    TunTap,
    WireGuard,
    Generic,
    Other,
    #[default]
    Unknown,
}

/// The device kind a code names: the kinds this crate types are named
/// directly, any other published code reads as `Other`, and an
/// unpublished code reads as `Unknown`.
pub open spec fn device_type_of(code: u32) -> DeviceType {
    if code == 1 {
        DeviceType::Ethernet
    } else if code == 2 {
        DeviceType::Wifi
    } else if code == 5 {
        DeviceType::Bluetooth
    } else if code == 14 {
        DeviceType::Generic
    } else if code == 16 {
        DeviceType::TunTap
    } else if code == 29 {
        DeviceType::WireGuard
    } else if 3 <= code && code <= 32 {
        DeviceType::Other
    } else {
        DeviceType::Unknown
    }
}

impl From<u32> for DeviceType {
    fn from(device_type: u32) -> (r: DeviceType) {
        match device_type {
            1 => DeviceType::Ethernet,
            2 => DeviceType::Wifi,
            5 => DeviceType::Bluetooth,
            14 => DeviceType::Generic,
            16 => DeviceType::TunTap,
            29 => DeviceType::WireGuard,
            3..=32 => DeviceType::Other,
            _ => DeviceType::Unknown,
        }
    }
}

impl vstd::std_specs::convert::FromSpecImpl<u32> for DeviceType {
    open spec fn obeys_from_spec() -> bool {
        true
    }

    open spec fn from_spec(code: u32) -> DeviceType {
        device_type_of(code)
    }
}

/// The management state of a device.
#[derive(Default, Debug, Clone, Copy, PartialEq, Eq, Structural)]
pub enum DeviceState {
    Unmanaged,
    Unavailable,
    Disconnected,
    Prepare,
    Config,
    NeedAuth,
    IpConfig,
    IpCheck,
    Secondaries,
    Activated,
    Deactivating,
    Failed,
    #[default]
    Unknown,
}

/// The device state a code names.
pub open spec fn device_state_of(code: u32) -> DeviceState {
    match code {
        10u32 => DeviceState::Unmanaged,
        20u32 => DeviceState::Unavailable,
        30u32 => DeviceState::Disconnected,
        40u32 => DeviceState::Prepare,
        50u32 => DeviceState::Config,
        60u32 => DeviceState::NeedAuth,
        70u32 => DeviceState::IpConfig,
        80u32 => DeviceState::IpCheck,
        90u32 => DeviceState::Secondaries,
        100u32 => DeviceState::Activated,
        110u32 => DeviceState::Deactivating,
        120u32 => DeviceState::Failed,
        _ => DeviceState::Unknown,
    }
}

impl From<u32> for DeviceState {
    fn from(device_state: u32) -> (r: DeviceState) {
        match device_state {
            10 => DeviceState::Unmanaged,
            20 => DeviceState::Unavailable,
            30 => DeviceState::Disconnected,
            40 => DeviceState::Prepare,
            50 => DeviceState::Config,
            60 => DeviceState::NeedAuth,
            70 => DeviceState::IpConfig,
            80 => DeviceState::IpCheck,
            90 => DeviceState::Secondaries,
            100 => DeviceState::Activated,
            110 => DeviceState::Deactivating,
            120 => DeviceState::Failed,
            _ => DeviceState::Unknown,
        }
    }
}

impl vstd::std_specs::convert::FromSpecImpl<u32> for DeviceState {
    open spec fn obeys_from_spec() -> bool {
        true
    }

    open spec fn from_spec(code: u32) -> DeviceState {
        device_state_of(code)
    }
}

/// The lifecycle state of an active connection.
#[derive(Default, Debug, Clone, Copy, PartialEq, Eq, Structural)]
pub enum ActiveConnectionState {
    #[default]
    Unknown,
    Activating,
    Activated,
    Deactivating,
    Deactivated,
}

/// The active-connection state a code names.
pub open spec fn active_connection_state_of(code: u32) -> ActiveConnectionState {
    match code {
        1u32 => ActiveConnectionState::Activating,
        2u32 => ActiveConnectionState::Activated,
        3u32 => ActiveConnectionState::Deactivating,
        4u32 => ActiveConnectionState::Deactivated,
        _ => ActiveConnectionState::Unknown,
    }
}

impl From<u32> for ActiveConnectionState {
    fn from(device_state: u32) -> (r: ActiveConnectionState) {
        match device_state {
            1 => ActiveConnectionState::Activating,
            2 => ActiveConnectionState::Activated,
            3 => ActiveConnectionState::Deactivating,
            4 => ActiveConnectionState::Deactivated,
            _ => ActiveConnectionState::Unknown,
        }
    }
}

impl vstd::std_specs::convert::FromSpecImpl<u32> for ActiveConnectionState {
    open spec fn obeys_from_spec() -> bool {
        true
    }

    open spec fn from_spec(code: u32) -> ActiveConnectionState {
        active_connection_state_of(code)
    }
}

/// The operating mode of a wireless device.
#[derive(Default, Debug, Clone, Copy, PartialEq, Eq, Structural)]
pub enum WifiMode {
    AdHoc,
    Infra,
    Ap,
    Mesh,
    #[default]
    Unknown,
}

/// The wireless mode a code names.
pub open spec fn wifi_mode_of(code: u32) -> WifiMode {
    match code {
        1u32 => WifiMode::AdHoc,
        2u32 => WifiMode::Infra,
        3u32 => WifiMode::Ap,
        4u32 => WifiMode::Mesh,
        _ => WifiMode::Unknown,
    }
}

impl From<u32> for WifiMode {
    fn from(mode: u32) -> (r: WifiMode) {
        match mode {
            1 => WifiMode::AdHoc,
            2 => WifiMode::Infra,
            3 => WifiMode::Ap,
            4 => WifiMode::Mesh,
            _ => WifiMode::Unknown,
        }
    }
}

impl vstd::std_specs::convert::FromSpecImpl<u32> for WifiMode {
    open spec fn obeys_from_spec() -> bool {
        true
    }

    open spec fn from_spec(code: u32) -> WifiMode {
        wifi_mode_of(code)
    }
}

} // verus!
