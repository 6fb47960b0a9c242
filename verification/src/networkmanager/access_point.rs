//! The access-point surface of the network daemon.

use vstd::prelude::*;

use crate::fault::BusFault;
use crate::networkmanager::clock_boottime_to_time;
use crate::networkmanager::flags::{ApFlags, ApSecurityFlags, AP_FLAG_ALL, AP_SEC_ALL};

verus! {

/// A bound access-point surface: the object path of one access point.
pub struct AccessPoint {
    path: String,
}

impl View for AccessPoint {
    type V = Seq<char>;

    closed spec fn view(&self) -> Seq<char> {
        self.path@
    }
}

impl DeepView for AccessPoint {
    type V = Seq<char>;

    open spec fn deep_view(&self) -> Seq<char> {
        self@
    }
}

impl AccessPoint {
    /// Binds the access point at the given object path.
    pub fn new(path: String) -> (r: AccessPoint)
        ensures
            r@ == path@,
    {
        AccessPoint { path }
    }

    /// The object path this surface is bound to.
    pub fn path(&self) -> (r: &str)
        ensures
            r@ == self@,
    {
        self.path.as_str()
    }

    /// When the access point was last seen: the boot-relative reading
    /// converted against the machine's boot time, absent when the boot
    /// time does not fit a signed count.
    pub fn last_seen(&self, raw: Result<i32, BusFault>, boot_time_secs: u64) -> (r: Result<
        Option<i64>,
        BusFault,
    >)
        requires
            boot_time_secs <= i64::MAX as u64 ==> boot_time_secs + i32::MAX <= i64::MAX,
        ensures
            match raw {
                Ok(t) => r matches Ok(o) && o == if boot_time_secs <= i64::MAX as u64 {
                    Some((boot_time_secs + t) as i64)
                } else {
                    None
                },
                Err(e) => r == Err::<Option<i64>, BusFault>(e),
            },
    {
        match raw {
            Ok(t) => Ok(clock_boottime_to_time(t, boot_time_secs)),
            Err(e) => Err(e),
        }
    }

    /// Decodes the access point's general flags from a raw reading.
    pub fn flags(&self, raw: Result<u32, BusFault>) -> (r: Result<ApFlags, BusFault>)
        ensures
            match raw {
                Ok(bits) => r matches Ok(f) && f.bits == bits & AP_FLAG_ALL,
                Err(e) => r == Err::<ApFlags, BusFault>(e),
            },
    {
        match raw {
            Ok(bits) => Ok(ApFlags::from_bits_truncate(bits)),
            Err(e) => Err(e),
        }
    }

    /// Decodes the access point's pairwise security flags from a raw
    /// reading.
    pub fn rsn_flags(&self, raw: Result<u32, BusFault>) -> (r: Result<ApSecurityFlags, BusFault>)
        ensures
            match raw {
                Ok(bits) => r matches Ok(f) && f.bits == bits & AP_SEC_ALL,
                Err(e) => r == Err::<ApSecurityFlags, BusFault>(e),
            },
    {
        match raw {
            Ok(bits) => Ok(ApSecurityFlags::from_bits_truncate(bits)),
            Err(e) => Err(e),
        }
    }

    /// Decodes the access point's legacy security flags from a raw
    /// reading.
    pub fn wpa_flags(&self, raw: Result<u32, BusFault>) -> (r: Result<ApSecurityFlags, BusFault>)
        ensures
            match raw {
                Ok(bits) => r matches Ok(f) && f.bits == bits & AP_SEC_ALL,
                Err(e) => r == Err::<ApSecurityFlags, BusFault>(e),
            },
    {
        match raw {
            Ok(bits) => Ok(ApSecurityFlags::from_bits_truncate(bits)),
            Err(e) => Err(e),
        }
    }
}

} // verus!
