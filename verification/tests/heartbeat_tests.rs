use vm_monitor::heartbeat::check_boot_record;
use vm_monitor::heartbeat::create_boot_record;
use vm_monitor::heartbeat::heartbeat_step;
use vm_monitor::heartbeat::remove_boot_record;
use vm_monitor::heartbeat::HeartbeatMonitor;
use vm_monitor::heartbeat::CHECK_TIME_MINUTES;
use vm_monitor::heartbeat::MAX_COUNT_OVERFLOW;

#[test]
fn test_consts() {
    if CHECK_TIME_MINUTES < 5 {
        panic!("Check time has been set too low!");
    }
    if CHECK_TIME_MINUTES > 1000 {
        panic!("Check time has been set too high!");
    }
    if MAX_COUNT_OVERFLOW > 10 {
        panic!("Max overflow count is too high!");
    }
    if MAX_COUNT_OVERFLOW < 1 {
        panic!("Max count overflow is set too low!");
    }
}

#[test]
fn create_boot_record_test() {
    let mut monitor = HeartbeatMonitor::new();
    create_boot_record(&mut monitor);
    assert!(check_boot_record(&monitor));
}

#[test]
fn remove_boot_record_test() {
    let mut monitor = HeartbeatMonitor::new();
    create_boot_record(&mut monitor);
    assert!(check_boot_record(&monitor));
    remove_boot_record(&mut monitor);
    assert!(!check_boot_record(&monitor));
}

#[test]
fn check_boot_record_test() {
    let mut monitor = HeartbeatMonitor::new();
    create_boot_record(&mut monitor);
    assert_eq!(monitor.boot_record_present, check_boot_record(&monitor));
    remove_boot_record(&mut monitor);
    assert_eq!(monitor.boot_record_present, check_boot_record(&monitor));
}

#[test]
fn failed_beat_escalates_to_reboot() {
    let mut monitor = HeartbeatMonitor::new();
    let actions = heartbeat_step(&mut monitor, false);
    assert_eq!(monitor.failure_count, 1);
    assert!(!actions.remove_record);
    assert!(actions.create_record);
    assert!(actions.restart);
}

#[test]
fn existing_record_prevents_second_reboot() {
    let mut monitor = HeartbeatMonitor::new();
    let actions = heartbeat_step(&mut monitor, false);
    assert!(actions.restart);
    create_boot_record(&mut monitor);
    let actions = heartbeat_step(&mut monitor, false);
    assert_eq!(monitor.failure_count, 2);
    assert!(!actions.create_record);
    assert!(!actions.restart);
}

#[test]
fn successful_beat_clears_count_and_record() {
    let mut monitor = HeartbeatMonitor::new();
    heartbeat_step(&mut monitor, false);
    create_boot_record(&mut monitor);
    let actions = heartbeat_step(&mut monitor, true);
    assert_eq!(monitor.failure_count, 0);
    assert!(actions.remove_record);
    assert!(!actions.create_record);
    assert!(!actions.restart);
    remove_boot_record(&mut monitor);
    let actions = heartbeat_step(&mut monitor, true);
    assert!(!actions.remove_record);
}
