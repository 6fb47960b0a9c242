//! The device surfaces of the network daemon.
//!
//! A generic device can be narrowed to its hardware-specific surface once
//! its type code is known; the narrowing itself is a decision over the
//! typed code, taken here, while the transport reads the code.

use vstd::prelude::*;

use crate::fault::BusFault;
use crate::networkmanager::active_connection::ActiveConnection;
use crate::networkmanager::config::{Ipv4Address, Ipv4Config, Ipv6Config};
use crate::networkmanager::connection::Connection;
use crate::networkmanager::enums::{device_state_of, device_type_of, DeviceState, DeviceType};
use crate::networkmanager::flags::{DeviceCapabilities, DEVICE_CAP_ALL};

verus! {

broadcast use vstd::std_specs::vec::group_vec_axioms, vstd::seq::group_seq_axioms;

/// A bound generic device surface: the object path of one device.
pub struct Device {
    path: String,
}

impl View for Device {
    type V = Seq<char>;

    closed spec fn view(&self) -> Seq<char> {
        self.path@
    }
}

impl DeepView for Device {
    type V = Seq<char>;

    open spec fn deep_view(&self) -> Seq<char> {
        self@
    }
}

impl Device {
    /// Binds the device at the given object path.
    pub fn new(path: String) -> (r: Device)
        ensures
            r@ == path@,
    {
        Device { path }
    }

    /// The object path this surface is bound to.
    pub fn path(&self) -> (r: &str)
        ensures
            r@ == self@,
    {
        self.path.as_str()
    }

    /// Binds the device's active connection from the path the daemon
    /// reported.
    pub fn active_connection(&self, path: String) -> (r: ActiveConnection)
        ensures
            r@ == path@,
    {
        ActiveConnection::new(path)
    }

    /// Binds the device's available connection profiles from the paths
    /// the daemon reported, in order.
    pub fn available_connections(&self, paths: Vec<String>) -> (r: Vec<Connection>)
        ensures
            r.deep_view() == paths.deep_view(),
    {
        let mut out: Vec<Connection> = Vec::new();
        let n = paths.len();
        let mut i: usize = 0;
        while i < n
            invariant
                0 <= i <= n,
                n == paths@.len(),
                paths.deep_view().len() == n,
                forall|j: int| 0 <= j < n ==> #[trigger] paths.deep_view()[j] == paths@[j]@,
                out@.len() == i,
                forall|j: int| 0 <= j < i ==> (#[trigger] out@[j])@ == paths@[j]@,
            decreases n - i,
        {
            out.push(Connection::new(paths[i].clone()));
            i = i + 1;
        }
        proof {
            assert(out.deep_view() =~= paths.deep_view());
        }
        out
    }

    /// Decodes the device's capability bits from a raw reading.
    pub fn capabilities(&self, raw: Result<u32, BusFault>) -> (r: Result<
        DeviceCapabilities,
        BusFault,
    >)
        ensures
            match raw {
                Ok(bits) => r matches Ok(c) && c.bits == bits & DEVICE_CAP_ALL,
                Err(e) => r == Err::<DeviceCapabilities, BusFault>(e),
            },
    {
        match raw {
            Ok(bits) => Ok(DeviceCapabilities::from_bits_truncate(bits)),
            Err(e) => Err(e),
        }
    }

    /// Types the device's hardware kind from a raw code reading.
    pub fn device_type(&self, raw: Result<u32, BusFault>) -> (r: Result<DeviceType, BusFault>)
        ensures
            match raw {
                Ok(code) => r == Ok::<DeviceType, BusFault>(device_type_of(code)),
                Err(e) => r == Err::<DeviceType, BusFault>(e),
            },
    {
        match raw {
            Ok(code) => Ok(DeviceType::from(code)),
            Err(e) => Err(e),
        }
    }

    /// Types the device's management state from a raw code reading.
    pub fn state(&self, raw: Result<u32, BusFault>) -> (r: Result<DeviceState, BusFault>)
        ensures
            match raw {
                Ok(code) => r == Ok::<DeviceState, BusFault>(device_state_of(code)),
                Err(e) => r == Err::<DeviceState, BusFault>(e),
            },
    {
        match raw {
            Ok(code) => Ok(DeviceState::from(code)),
            Err(e) => Err(e),
        }
    }

    /// The device's primary address from a raw reading, whose integer
    /// carries the octets most significant first.
    pub fn ip4_address(&self, raw: Result<u32, BusFault>) -> (r: Result<Ipv4Address, BusFault>)
        ensures
            match raw {
                Ok(x) => r matches Ok(a) && a == Ipv4Address::from_be_spec(x),
                Err(e) => r == Err::<Ipv4Address, BusFault>(e),
            },
    {
        match raw {
            Ok(x) => Ok(Ipv4Address::from_be(x)),
            Err(e) => Err(e),
        }
    }

    /// Binds the device's address configuration from the path the daemon
    /// reported.
    pub fn ip4_config(&self, path: String) -> (r: Ipv4Config)
        ensures
            r@ == path@,
    {
        Ipv4Config::new(path)
    }

    /// Binds the device's address configuration from the path the daemon
    /// reported.
    pub fn ip6_config(&self, path: String) -> (r: Ipv6Config)
        ensures
            r@ == path@,
    {
        Ipv6Config::new(path)
    }

    /// Narrows the device to its hardware-specific surface at the same
    /// path, given its typed kind; kinds this crate does not type
    /// narrow to nothing.
    pub fn downcast_to_device(&self, device_type: DeviceType) -> (r: Option<SpecificDevice>)
        ensures
            match device_type {
                DeviceType::Bluetooth => r matches Some(d) && d matches
                    SpecificDevice::Bluetooth(b) && b@ == self@,
                DeviceType::Ethernet => r matches Some(d) && d matches SpecificDevice::Wired(w)
                    && w@ == self@,
                DeviceType::Wifi => r matches Some(d) && d matches SpecificDevice::Wireless(w)
                    && w@ == self@,
                DeviceType::TunTap => r matches Some(d) && d matches SpecificDevice::TunTap(t)
                    && t@ == self@,
                DeviceType::WireGuard => r matches Some(d) && d matches
                    SpecificDevice::WireGuard(w) && w@ == self@,
                _ => r is None,
            },
    {
        match device_type {
            DeviceType::Bluetooth => Some(
                SpecificDevice::Bluetooth(BluetoothDevice { path: self.path.clone() }),
            ),
            DeviceType::Ethernet => Some(
                SpecificDevice::Wired(WiredDevice { path: self.path.clone() }),
            ),
            DeviceType::Wifi => Some(
                SpecificDevice::Wireless(WirelessDevice { path: self.path.clone() }),
            ),
            DeviceType::TunTap => Some(
                SpecificDevice::TunTap(TunDevice { path: self.path.clone() }),
            ),
            DeviceType::WireGuard => Some(
                SpecificDevice::WireGuard(WireGuardDevice { path: self.path.clone() }),
            ),
            _ => None,
        }
    }
}

/// A bound Bluetooth device surface.
pub struct BluetoothDevice {
    path: String,
}

impl View for BluetoothDevice {
    type V = Seq<char>;

    closed spec fn view(&self) -> Seq<char> {
        self.path@
    }
}

impl BluetoothDevice {
    /// Binds the Bluetooth surface at the given object path.
    pub fn new(path: String) -> (r: BluetoothDevice)
        ensures
            r@ == path@,
    {
        BluetoothDevice { path }
    }

    /// The generic device surface at the same path.
    pub fn upcast(&self) -> (r: Device)
        ensures
            r@ == self@,
    {
        Device { path: self.path.clone() }
    }
}

/// A bound wired device surface.
pub struct WiredDevice {
    path: String,
}

impl View for WiredDevice {
    type V = Seq<char>;

    closed spec fn view(&self) -> Seq<char> {
        self.path@
    }
}

impl WiredDevice {
    /// Binds the wired surface at the given object path.
    pub fn new(path: String) -> (r: WiredDevice)
        ensures
            r@ == path@,
    {
        WiredDevice { path }
    }

    /// The generic device surface at the same path.
    pub fn upcast(&self) -> (r: Device)
        ensures
            r@ == self@,
    {
        Device { path: self.path.clone() }
    }
}

/// A bound wireless device surface.
pub struct WirelessDevice {
    path: String,
}

impl View for WirelessDevice {
    type V = Seq<char>;

    closed spec fn view(&self) -> Seq<char> {
        self.path@
    }
}

impl WirelessDevice {
    /// Binds the wireless surface at the given object path.
    pub fn new(path: String) -> (r: WirelessDevice)
        ensures
            r@ == path@,
    {
        WirelessDevice { path }
    }

    /// The generic device surface at the same path.
    pub fn upcast(&self) -> (r: Device)
        ensures
            r@ == self@,
    {
        Device { path: self.path.clone() }
    }

    /// Binds the access points the daemon listed in an active scan, in
    /// order.
    pub fn get_access_points(&self, paths: Vec<String>) -> (r: Vec<
        crate::networkmanager::access_point::AccessPoint,
    >)
        ensures
            r.deep_view() == paths.deep_view(),
    {
        access_points_from_paths(paths)
    }

    /// Binds every access point the daemon knows, in order.
    pub fn get_all_access_points(&self, paths: Vec<String>) -> (r: Vec<
        crate::networkmanager::access_point::AccessPoint,
    >)
        ensures
            r.deep_view() == paths.deep_view(),
    {
        access_points_from_paths(paths)
    }

    /// Binds the access points of the device property listing, in order.
    pub fn access_points(&self, paths: Vec<String>) -> (r: Vec<
        crate::networkmanager::access_point::AccessPoint,
    >)
        ensures
            r.deep_view() == paths.deep_view(),
    {
        access_points_from_paths(paths)
    }

    /// Binds the access point the device is joined to, from the path the
    /// daemon reported.
    pub fn active_access_point(&self, path: String) -> (r:
        crate::networkmanager::access_point::AccessPoint)
        ensures
            r@ == path@,
    {
        crate::networkmanager::access_point::AccessPoint::new(path)
    }

    /// Decodes the device's wireless capability bits from a raw reading.
    pub fn wireless_capabilities(&self, raw: Result<u32, BusFault>) -> (r: Result<
        crate::networkmanager::flags::WifiCapabilities,
        BusFault,
    >)
        ensures
            match raw {
                Ok(bits) => r matches Ok(c) && c.bits == bits
                    & crate::networkmanager::flags::WIFI_CAP_ALL,
                Err(e) => r == Err::<crate::networkmanager::flags::WifiCapabilities, BusFault>(e),
            },
    {
        match raw {
            Ok(bits) => Ok(crate::networkmanager::flags::WifiCapabilities::from_bits_truncate(
                bits,
            )),
            Err(e) => Err(e),
        }
    }
}

/// Binds one access point per listed path, in order.
fn access_points_from_paths(paths: Vec<String>) -> (r: Vec<
    crate::networkmanager::access_point::AccessPoint,
>)
    ensures
        r.deep_view() == paths.deep_view(),
{
    let mut out: Vec<crate::networkmanager::access_point::AccessPoint> = Vec::new();
    let n = paths.len();
    let mut i: usize = 0;
    while i < n
        invariant
            0 <= i <= n,
            n == paths@.len(),
            paths.deep_view().len() == n,
            forall|j: int| 0 <= j < n ==> #[trigger] paths.deep_view()[j] == paths@[j]@,
            out@.len() == i,
            forall|j: int| 0 <= j < i ==> (#[trigger] out@[j])@ == paths@[j]@,
        decreases n - i,
    {
        out.push(crate::networkmanager::access_point::AccessPoint::new(paths[i].clone()));
        i = i + 1;
    }
    proof {
        assert(out.deep_view() =~= paths.deep_view());
    }
    out
}

/// A bound tunnel device surface.
pub struct TunDevice {
    path: String,
}

impl View for TunDevice {
    type V = Seq<char>;

    closed spec fn view(&self) -> Seq<char> {
        self.path@
    }
}

impl TunDevice {
    /// Binds the tunnel surface at the given object path.
    pub fn new(path: String) -> (r: TunDevice)
        ensures
            r@ == path@,
    {
        TunDevice { path }
    }

    /// The generic device surface at the same path.
    pub fn upcast(&self) -> (r: Device)
        ensures
            r@ == self@,
    {
        Device { path: self.path.clone() }
    }

    /// The owning user of the tunnel from a raw reading: -1 means no
    /// owner, a value within unsigned 16-bit range is the owner, and any
    /// other value reads as no owner.
    pub fn owner(&self, raw: Result<i32, BusFault>) -> (r: Result<Option<u16>, BusFault>)
        ensures
            match raw {
                Ok(v) => r == Ok::<Option<u16>, BusFault>(
                    if v == -1 {
                        None
                    } else if 0 <= v <= u16::MAX {
                        Some(v as u16)
                    } else {
                        None
                    },
                ),
                Err(e) => r == Err::<Option<u16>, BusFault>(e),
            },
    {
        match raw {
            Ok(v) => {
                if v == -1 {
                    Ok(None)
                } else if 0 <= v && v <= u16::MAX as i32 {
                    Ok(Some(v as u16))
                } else {
                    Ok(None)
                }
            }
            Err(e) => Err(e),
        }
    }
}

/// A bound tunnel-over-encryption device surface.
pub struct WireGuardDevice {
    path: String,
}

impl View for WireGuardDevice {
    type V = Seq<char>;

    closed spec fn view(&self) -> Seq<char> {
        self.path@
    }
}

impl WireGuardDevice {
    /// Binds the surface at the given object path.
    pub fn new(path: String) -> (r: WireGuardDevice)
        ensures
            r@ == path@,
    {
        WireGuardDevice { path }
    }

    /// The generic device surface at the same path.
    pub fn upcast(&self) -> (r: Device)
        ensures
            r@ == self@,
    {
        Device { path: self.path.clone() }
    }
}

/// A device narrowed to its hardware-specific surface.
pub enum SpecificDevice {
    Bluetooth(BluetoothDevice),
    Wired(WiredDevice),
    Wireless(WirelessDevice),
    TunTap(TunDevice),
    WireGuard(WireGuardDevice),
}

impl SpecificDevice {
    /// The Bluetooth surface, if that is what the device is.
    pub fn into_bluetooth(self) -> (r: Option<BluetoothDevice>)
        ensures
            match self {
                SpecificDevice::Bluetooth(d) => r == Some(d),
                _ => r is None,
            },
    {
        match self {
            SpecificDevice::Bluetooth(device) => Some(device),
            _ => None,
        }
    }

    /// The wired surface, if that is what the device is.
    pub fn into_wired(self) -> (r: Option<WiredDevice>)
        ensures
            match self {
                SpecificDevice::Wired(d) => r == Some(d),
                _ => r is None,
            },
    {
        match self {
            SpecificDevice::Wired(device) => Some(device),
            _ => None,
        }
    }

    /// The wireless surface, if that is what the device is.
    pub fn into_wireless(self) -> (r: Option<WirelessDevice>)
        ensures
            match self {
                SpecificDevice::Wireless(d) => r == Some(d),
                _ => r is None,
            },
    {
        match self {
            SpecificDevice::Wireless(device) => Some(device),
            _ => None,
        }
    }

    /// The tunnel surface, if that is what the device is.
    pub fn into_tun(self) -> (r: Option<TunDevice>)
        ensures
            match self {
                SpecificDevice::TunTap(d) => r == Some(d),
                _ => r is None,
            },
    {
        match self {
            SpecificDevice::TunTap(device) => Some(device),
            _ => None,
        }
    }

    /// The encrypted-tunnel surface, if that is what the device is.
    pub fn into_wireguard(self) -> (r: Option<WireGuardDevice>)
        ensures
            match self {
                SpecificDevice::WireGuard(d) => r == Some(d),
                _ => r is None,
            },
    {
        match self {
            SpecificDevice::WireGuard(device) => Some(device),
            _ => None,
        }
    }
}

} // verus!
