//! Typed client surface for the network management daemon.
//!
//! The daemon exposes numeric state and capability codes and object paths
//! for its devices, connections and address configurations.  The mappings
//! from codes to typed values, the capability-flag decoding, and the
//! address-data extraction are verified here; the transport performs the
//! property reads and hands the raw values in.

pub mod access_point;
pub mod active_connection;
pub mod config;
pub mod connection;
pub mod device;
pub mod enums;
pub mod flags;
pub mod nm;
pub mod settings;

use vstd::prelude::*;

verus! {

/// Converts a kernel boot-relative timestamp to Unix seconds, given the
/// machine's boot time: their sum, absent when the boot time does not
/// fit a signed 64-bit count.
pub fn clock_boottime_to_time(time: i32, boot_time_secs: u64) -> (r: Option<i64>)
    requires
        boot_time_secs <= i64::MAX as u64 ==> boot_time_secs + time <= i64::MAX,
    ensures
        match r {
            Some(v) => boot_time_secs <= i64::MAX as u64 && v == boot_time_secs + time,
            None => boot_time_secs > i64::MAX as u64,
        },
{
    if boot_time_secs > 0x7fff_ffff_ffff_ffffu64 {
        return None;
    }
    let boot = boot_time_secs as i64;
    Some(boot + (time as i64))
}

} // verus!
