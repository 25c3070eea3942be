use vstd::prelude::*;

verus! {

/// Runtime settings for the monitor, produced by an external loader and
/// treated as read-only here.
pub struct Config {
    /// How often to poll the pool API for the latest share time, in seconds.
    pub check_time_seconds: u64,
    /// How long a worker may go without a share before it counts as offline,
    /// in minutes.
    pub offline_threshold_minutes: u64,
    /// The pool account under which the rig mines.
    pub mining_account_name: String,
    /// The worker name to look for in the pool's worker list.
    pub mining_rig_name: String,
    /// The virtual machine to restart when the worker goes stale.
    pub virtual_machine_name: String,
    /// How long to wait for the virtual machine to shut down gracefully,
    /// in seconds.
    pub shutdown_time_seconds: u64,
    /// How long to wait after starting the virtual machine before the next
    /// poll is meaningful, in seconds.
    pub virtual_machine_restart_time_seconds: u64,
}

impl Default for Config {
    /// Stock settings: poll every two minutes, twenty minutes of silence
    /// before a restart, twenty seconds of graceful shutdown, three minutes
    /// of settle time, and empty names that the operator must fill in.
    fn default() -> (c: Self)
        ensures
            c.check_time_seconds == 120,
            c.offline_threshold_minutes == 20,
            c.mining_account_name@ == Seq::<char>::empty(),
            c.mining_rig_name@ == Seq::<char>::empty(),
            c.virtual_machine_name@ == Seq::<char>::empty(),
            c.shutdown_time_seconds == 20,
            c.virtual_machine_restart_time_seconds == 180,
    {
        Config {
            check_time_seconds: 120,
            offline_threshold_minutes: 20,
            mining_account_name: String::new(),
            mining_rig_name: String::new(),
            virtual_machine_name: String::new(),
            shutdown_time_seconds: 20,
            virtual_machine_restart_time_seconds: 180,
        }
    }
}

} // verus!
