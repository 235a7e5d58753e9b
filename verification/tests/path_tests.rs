use libproduct::{
    application_directory, config_path, configs_root, data_root, log_path, log_path_at, logs_root,
    DirKind, ProductName, DEFAULT_PRODUCT_BASE,
};

#[test]
fn config_path_ends_in_configs_module_toml() {
    let id = ProductName::new("dev.thmsn.app", "0.1.0", None);
    let path = config_path(Some(&id), "database").unwrap();
    assert!(path.ends_with("/dev.thmsn.app/configs/database.toml"));
}

#[test]
fn config_path_nests_under_the_rendered_name() {
    let id = ProductName::new("dev.thmsn.app", "0.1.0", None).with("worker");
    let path = config_path(Some(&id), "database").unwrap();
    let expected_tail = format!("/{}/configs/database.toml", id.render_name());
    assert!(path.ends_with(&expected_tail));
}

#[test]
fn unregistered_paths_use_the_default_segment() {
    let path = config_path(None, "database").unwrap();
    let expected_tail = format!("/{DEFAULT_PRODUCT_BASE}/configs/database.toml");
    assert!(path.ends_with(&expected_tail));
}

#[test]
fn path_operations_are_idempotent() {
    let id = ProductName::new("dev.thmsn.app", "0.1.0", None);
    assert_eq!(data_root(Some(&id)).unwrap(), data_root(Some(&id)).unwrap());
    assert_eq!(
        configs_root(Some(&id)).unwrap(),
        configs_root(Some(&id)).unwrap()
    );
    assert_eq!(
        config_path(Some(&id), "database").unwrap(),
        config_path(Some(&id), "database").unwrap()
    );
    assert_eq!(logs_root(Some(&id)).unwrap(), logs_root(Some(&id)).unwrap());
    assert_eq!(
        log_path_at(Some(&id), 7).unwrap(),
        log_path_at(Some(&id), 7).unwrap()
    );
}

#[test]
fn configs_and_logs_sit_beside_each_other() {
    let id = ProductName::new("dev.thmsn.app", "0.1.0", None);
    let root = data_root(Some(&id)).unwrap();
    assert_eq!(configs_root(Some(&id)).unwrap(), format!("{root}/configs"));
    assert_eq!(logs_root(Some(&id)).unwrap(), format!("{root}/logs"));
}

#[test]
fn log_path_is_stamped_with_the_epoch_seconds() {
    let id = ProductName::new("dev.thmsn.app", "0.1.0", None);
    let at_zero = log_path_at(Some(&id), 0).unwrap();
    assert!(at_zero.ends_with("/logs/log_0.json"));
    let at_large = log_path_at(Some(&id), 1700000001).unwrap();
    assert!(at_large.ends_with("/logs/log_1700000001.json"));
}

#[test]
fn application_directories_end_in_the_rendered_name() {
    let id = ProductName::new("dev.thmsn.app", "0.1.0", None);
    let home = application_directory(DirKind::Home, Some(&id)).unwrap();
    assert!(home.ends_with("/dev.thmsn.app"));
    let config = application_directory(DirKind::Config, Some(&id)).unwrap();
    assert!(config.ends_with("/dev.thmsn.app"));
    let data_local = application_directory(DirKind::DataLocal, Some(&id)).unwrap();
    assert_eq!(data_local, data_root(Some(&id)).unwrap());
}

#[test]
fn log_path_handles_the_largest_timestamp() {
    let id = ProductName::new("dev.thmsn.app", "0.1.0", None);
    let path = log_path_at(Some(&id), u64::MAX).unwrap();
    assert!(path.ends_with("/logs/log_18446744073709551615.json"));
}

#[test]
fn log_path_uses_the_current_clock() {
    let id = ProductName::new("dev.thmsn.app", "0.1.0", None);
    let path = log_path(Some(&id)).unwrap();
    let logs = logs_root(Some(&id)).unwrap();
    assert!(path.starts_with(&format!("{logs}/log_")));
    assert!(path.ends_with(".json"));
}
