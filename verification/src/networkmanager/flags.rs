//! The daemon's capability and state bit sets.
//!
//! Each set holds a 32-bit mask; reading one from the wire keeps the
//! published bits and drops the rest.

use vstd::prelude::*;

verus! {

pub const DEVICE_CAP_SUPPORTED: u32 = 0x1;
pub const DEVICE_CAP_CARRIER_DETECT: u32 = 0x2;
pub const DEVICE_CAP_SOFTWARE: u32 = 0x4;
pub const DEVICE_CAP_SINGLE_ROOT_IO_VIRT: u32 = 0x8;

/// All published device-capability bits.
pub const DEVICE_CAP_ALL: u32 = 0xf;

/// The capability bits of a device.
#[derive(Debug, Clone, Copy, PartialEq, Eq, Structural)]
pub struct DeviceCapabilities {
    pub bits: u32,
}

impl DeviceCapabilities {
    /// Keeps the published capability bits of a raw reading.
    pub fn from_bits_truncate(bits: u32) -> (r: DeviceCapabilities)
        ensures
            r.bits == bits & DEVICE_CAP_ALL,
    {
        DeviceCapabilities { bits: bits & DEVICE_CAP_ALL }
    }

    /// The raw bits held.
    pub fn bits(&self) -> (r: u32)
        ensures
            r == self.bits,
    {
        self.bits
    }

    /// Whether every bit of `flag` is set.
    pub fn contains(&self, flag: u32) -> (r: bool)
        ensures
            r == (self.bits & flag == flag),
    {
        self.bits & flag == flag
    }
}

pub const WIFI_CAP_CIPHER_WEP40: u32 = 0x1;
pub const WIFI_CAP_CIPHER_WEP104: u32 = 0x2;
pub const WIFI_CAP_CIPHER_TKIP: u32 = 0x4;
pub const WIFI_CAP_CIPHER_CCMP: u32 = 0x8;
pub const WIFI_CAP_WPA: u32 = 0x10;
pub const WIFI_CAP_RSN: u32 = 0x20;
pub const WIFI_CAP_AP: u32 = 0x40;
pub const WIFI_CAP_AD_HOC: u32 = 0x80;
pub const WIFI_CAP_FREQ_VALID: u32 = 0x100;
pub const WIFI_CAP_FREQ_2GHZ: u32 = 0x200;
pub const WIFI_CAP_FREQ_5GHZ: u32 = 0x400;
pub const WIFI_CAP_MESH: u32 = 0x1000;
pub const WIFI_CAP_IBSS_RSN: u32 = 0x2000;

/// All published wireless-capability bits.
pub const WIFI_CAP_ALL: u32 = 0x37ff;

/// The capability bits of a wireless device.
#[derive(Debug, Clone, Copy, PartialEq, Eq, Structural)]
pub struct WifiCapabilities {
    pub bits: u32,
}

impl WifiCapabilities {
    /// Keeps the published capability bits of a raw reading.
    pub fn from_bits_truncate(bits: u32) -> (r: WifiCapabilities)
        ensures
            r.bits == bits & WIFI_CAP_ALL,
    {
        WifiCapabilities { bits: bits & WIFI_CAP_ALL }
    }

    /// The raw bits held.
    pub fn bits(&self) -> (r: u32)
        ensures
            r == self.bits,
    {
        self.bits
    }

    /// Whether every bit of `flag` is set.
    pub fn contains(&self, flag: u32) -> (r: bool)
        ensures
            r == (self.bits & flag == flag),
    {
        self.bits & flag == flag
    }
}

pub const ACTIVATION_IS_MASTER: u32 = 0x1;
pub const ACTIVATION_IS_SLAVE: u32 = 0x2;
pub const ACTIVATION_LAYER2_READY: u32 = 0x4;
pub const ACTIVATION_IP4_READY: u32 = 0x8;
pub const ACTIVATION_IP6_READY: u32 = 0x10;
pub const ACTIVATION_MASTER_HAS_SLAVES: u32 = 0x20;
pub const ACTIVATION_LIFETIME_BOUND_TO_PROFILE_VISIBILITY: u32 = 0x40;
pub const ACTIVATION_EXTERNAL: u32 = 0x80;

/// All published activation-state bits.
pub const ACTIVATION_ALL: u32 = 0xff;

/// The activation-state bits of an active connection.
#[derive(Debug, Clone, Copy, PartialEq, Eq, Structural)]
pub struct ActivationStateFlags {
    pub bits: u32,
}

impl ActivationStateFlags {
    /// Keeps the published state bits of a raw reading.
    pub fn from_bits_truncate(bits: u32) -> (r: ActivationStateFlags)
        ensures
            r.bits == bits & ACTIVATION_ALL,
    {
        ActivationStateFlags { bits: bits & ACTIVATION_ALL }
    }

    /// The raw bits held.
    pub fn bits(&self) -> (r: u32)
        ensures
            r == self.bits,
    {
        self.bits
    }

    /// Whether every bit of `flag` is set.
    pub fn contains(&self, flag: u32) -> (r: bool)
        ensures
            r == (self.bits & flag == flag),
    {
        self.bits & flag == flag
    }
}

pub const AP_FLAG_PRIVACY: u32 = 0x1;
pub const AP_FLAG_WPS: u32 = 0x2;
pub const AP_FLAG_WPS_PBC: u32 = 0x4;
pub const AP_FLAG_WPS_PIN: u32 = 0x8;

/// All published access-point bits.
pub const AP_FLAG_ALL: u32 = 0xf;

/// The general flags of an access point.
#[derive(Debug, Clone, Copy, PartialEq, Eq, Structural)]
pub struct ApFlags {
    pub bits: u32,
}

impl ApFlags {
    /// Keeps the published flag bits of a raw reading.
    pub fn from_bits_truncate(bits: u32) -> (r: ApFlags)
        ensures
            r.bits == bits & AP_FLAG_ALL,
    {
        ApFlags { bits: bits & AP_FLAG_ALL }
    }

    /// The raw bits held.
    pub fn bits(&self) -> (r: u32)
        ensures
            r == self.bits,
    {
        self.bits
    }

    /// Whether every bit of `flag` is set.
    pub fn contains(&self, flag: u32) -> (r: bool)
        ensures
            r == (self.bits & flag == flag),
    {
        self.bits & flag == flag
    }
}

pub const AP_SEC_WEP40: u32 = 0x1;
pub const AP_SEC_WEP104: u32 = 0x2;
pub const AP_SEC_TKIP: u32 = 0x4;
pub const AP_SEC_CCMP: u32 = 0x8;
pub const AP_SEC_GROUP_WEP40: u32 = 0x10;
pub const AP_SEC_GROUP_WEP104: u32 = 0x20;
pub const AP_SEC_GROUP_TKIP: u32 = 0x40;
pub const AP_SEC_GROUP_CCMP: u32 = 0x80;
pub const AP_SEC_KEY_MGMTPSK: u32 = 0x100;
pub const AP_SEC_KEY_MGMT_802_1X: u32 = 0x200;
pub const AP_SEC_KEY_MGMT_SAE: u32 = 0x400;
pub const AP_SEC_KEY_MGMT_OWE: u32 = 0x800;
pub const AP_SEC_KEY_MGMT_OWE_TM: u32 = 0x1000;
pub const AP_SEC_KEY_MGMT_EAP_SUITE_B_192: u32 = 0x2000;

/// All published access-point security bits.
pub const AP_SEC_ALL: u32 = 0x3fff;

/// The security flags of an access point.
#[derive(Debug, Clone, Copy, PartialEq, Eq, Structural)]
pub struct ApSecurityFlags {
    pub bits: u32,
}

impl ApSecurityFlags {
    /// Keeps the published security bits of a raw reading.
    pub fn from_bits_truncate(bits: u32) -> (r: ApSecurityFlags)
        ensures
            r.bits == bits & AP_SEC_ALL,
    {
        ApSecurityFlags { bits: bits & AP_SEC_ALL }
    }

    /// The raw bits held.
    pub fn bits(&self) -> (r: u32)
        ensures
            r == self.bits,
    {
        self.bits
    }

    /// Whether every bit of `flag` is set.
    pub fn contains(&self, flag: u32) -> (r: bool)
        ensures
            r == (self.bits & flag == flag),
    {
        self.bits & flag == flag
    }
}

} // verus!
