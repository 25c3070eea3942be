use vm_monitor::config::Config;

#[test]
fn default_config_matches_the_stock_settings() {
    let config = Config::default();
    assert_eq!(config.check_time_seconds, 120);
    assert_eq!(config.offline_threshold_minutes, 20);
    assert_eq!(config.mining_account_name, "");
    assert_eq!(config.mining_rig_name, "");
    assert_eq!(config.virtual_machine_name, "");
    assert_eq!(config.shutdown_time_seconds, 20);
    assert_eq!(config.virtual_machine_restart_time_seconds, 180);
}
