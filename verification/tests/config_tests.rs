use orbiton::config::OrbitonConfig;
use orbiton::maintenance::MaintenanceManager;

#[test]
fn test_default_config() {
    let config = OrbitonConfig::default();
    assert_eq!(config.dev_server.port, 3000);
    assert_eq!(config.dev_server.host, "127.0.0.1");
    assert!(config.hmr.enabled);
    assert_eq!(config.hmr.debounce_ms, 100);
}

#[test]
fn test_config_validation() {
    let mut config = OrbitonConfig::default();
    assert!(config.validate().is_ok());

    config.dev_server.port = 0;
    assert!(config.validate().is_err());

    config.dev_server.port = 3000;
    config.hmr.debounce_ms = 10000;
    assert!(config.validate().is_err());
}

#[test]
fn test_config_merge() {
    let mut base_config = OrbitonConfig::default();
    let mut override_config = OrbitonConfig::default();

    override_config.dev_server.port = 8080;
    override_config.hmr.enabled = false;

    base_config.merge_with(&override_config);

    assert_eq!(base_config.dev_server.port, 8080);
    assert!(!base_config.hmr.enabled);
}

#[test]
fn test_config_merging() {
    let mut manager = MaintenanceManager::new(OrbitonConfig::default(), ".".to_string());
    let original_port = manager.config().dev_server.port;

    let mut override_config = OrbitonConfig::default();
    override_config.dev_server.port = 9999;

    manager.apply_config_overrides(&override_config);

    assert_ne!(manager.config().dev_server.port, original_port);
    assert_eq!(manager.config().dev_server.port, 9999);
}

#[test]
fn test_maintenance_manager_creation() {
    let manager = MaintenanceManager::new(OrbitonConfig::default(), ".".to_string());
    assert_eq!(manager.config().dev_server.port, 3000);
    assert!(!manager.hmr_context().needs_update());
}

#[test]
fn merge_keeps_base_for_default_fields() {
    let mut base = OrbitonConfig::default();
    base.dev_server.port = 4000;
    base.hmr.debounce_ms = 250;
    let overrides = OrbitonConfig::default();
    base.merge_with(&overrides);
    assert_eq!(base.dev_server.port, 4000);
    assert_eq!(base.hmr.debounce_ms, 250);
}

#[test]
fn merge_extends_ignore_patterns_and_rules() {
    let mut base = OrbitonConfig::default();
    let mut overrides = OrbitonConfig::default();
    overrides.hmr.ignore_patterns = vec!["extra/**".to_string()];
    overrides.lint.rules.push(("no-unused".to_string(), false));
    base.merge_with(&overrides);
    assert_eq!(base.hmr.ignore_patterns.len(), 5);
    assert_eq!(base.hmr.ignore_patterns[4], "extra/**");
    assert_eq!(base.lint.rules, vec![("no-unused".to_string(), false)]);
}

#[test]
fn validate_error_messages() {
    let mut config = OrbitonConfig::default();
    config.dev_server.port = 0;
    let err = config.validate().unwrap_err();
    assert_eq!(err.message(), "Dev server port cannot be 0");

    let mut config = OrbitonConfig::default();
    config.hmr.debounce_ms = 5001;
    let err = config.validate().unwrap_err();
    assert_eq!(err.message(), "HMR debounce time too high (max 5000ms)");
}

#[test]
fn maintenance_cleanup_and_clear() {
    let mut manager = MaintenanceManager::new(OrbitonConfig::default(), "/p".to_string());
    manager.hmr_context.record_change("a".to_string(), 1000);
    manager.hmr_context.record_change("b".to_string(), 1600);
    // At time 2000 with a 500 ms threshold only `a` (age 1000) is stale.
    let removed = manager.cleanup_stale_updates(500, 2000);
    assert_eq!(removed, 1);
    assert_eq!(manager.hmr_context.get_pending_updates(), vec!["b".to_string()]);
    assert_eq!(manager.get_update_info(2000), Some(400));
    manager.clear_all_updates();
    assert!(!manager.hmr_context.needs_update());
    assert_eq!(manager.get_update_info(2000), None);
}
