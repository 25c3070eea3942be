use vstd::prelude::*;

verus! {

/// How often the connectivity monitor checks the connection, in minutes.
pub const CHECK_TIME_MINUTES: u16 = 15;

/// How many failed checks in a row are tolerated before the machine is
/// rebooted.
pub const MAX_COUNT_OVERFLOW: u8 = 1;

/// The connectivity monitor's view of the system: how many checks in a
/// row have failed, and whether a boot record is present on disk. The
/// surrounding program performs the connectivity check and the file
/// operations, and keeps this state in step with them.
pub struct HeartbeatMonitor {
    /// How many connectivity checks in a row have failed.
    pub failure_count: u8,
    /// Whether a boot record is present: the machine was already rebooted
    /// once without the connection coming back.
    pub boot_record_present: bool,
}

/// What one connectivity cycle asks the surrounding program to do.
#[derive(Clone, Copy, Debug, PartialEq, Eq, Structural)]
pub struct HeartbeatActions {
    /// Remove the boot record: the connection is back.
    pub remove_record: bool,
    /// Write the boot record before rebooting, so a second reboot is not
    /// attempted while the connection stays down.
    pub create_record: bool,
    /// Reboot the machine.
    pub restart: bool,
}

impl HeartbeatMonitor {
    /// A fresh monitor: no failures seen, no boot record.
    pub fn new() -> (m: Self)
        ensures
            m.failure_count == 0,
            !m.boot_record_present,
    {
        HeartbeatMonitor { failure_count: 0, boot_record_present: false }
    }
}

/// Whether a boot record exists, as far as the monitor knows.
pub fn check_boot_record(monitor: &HeartbeatMonitor) -> (r: bool)
    ensures
        r == monitor.boot_record_present,
{
    monitor.boot_record_present
}

/// Note that the boot record has been written.
pub fn create_boot_record(monitor: &mut HeartbeatMonitor)
    ensures
        final(monitor).boot_record_present,
        final(monitor).failure_count == old(monitor).failure_count,
{
    monitor.boot_record_present = true;
}

/// Note that the boot record has been removed.
pub fn remove_boot_record(monitor: &mut HeartbeatMonitor)
    ensures
        !final(monitor).boot_record_present,
        final(monitor).failure_count == old(monitor).failure_count,
{
    monitor.boot_record_present = false;
}

/// Advance the connectivity monitor by one cycle; `beat_ok` says whether
/// the connectivity check succeeded.
///
/// A success clears the failure count and asks for the boot record to be
/// removed if one is present. A failure raises the count, stopping at its
/// largest value; once the count reaches the tolerance and no boot record
/// is present, the cycle asks for the record to be written and the
/// machine rebooted. The record itself is updated separately, once the
/// file operations went through.
pub fn heartbeat_step(monitor: &mut HeartbeatMonitor, beat_ok: bool) -> (a: HeartbeatActions)
    ensures
        final(monitor).boot_record_present == old(monitor).boot_record_present,
        final(monitor).failure_count == (if beat_ok {
            0u8
        } else if old(monitor).failure_count < 255 {
            (old(monitor).failure_count + 1) as u8
        } else {
            255u8
        }),
        a.remove_record == (beat_ok && old(monitor).boot_record_present),
        a.create_record == (final(monitor).failure_count >= MAX_COUNT_OVERFLOW
            && !old(monitor).boot_record_present),
        a.restart == a.create_record,
{
    let mut remove_record = false;
    if beat_ok {
        monitor.failure_count = 0;
        if monitor.boot_record_present {
            remove_record = true;
        }
    } else if monitor.failure_count < 255 {
        monitor.failure_count = monitor.failure_count + 1;
    }
    let escalate: bool = monitor.failure_count >= MAX_COUNT_OVERFLOW
        && !monitor.boot_record_present;
    HeartbeatActions { remove_record, create_record: escalate, restart: escalate }
}

} // verus!
