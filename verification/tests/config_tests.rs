use backup_store::{Config, MaybeConfig, WalkDirOptions};

#[test]
fn default_config_values() {
    let config = Config::new();
    assert_eq!(config.delay(), 1000);
    assert_eq!(config.app_dir(), "~/.storage-app-data");
    assert_eq!(config.store_dir(), "~/.storage-app-data/.store");
    assert_eq!(config.tracking_list(), "~/.storage-app-store/tracking_list.json");
}

#[test]
fn extend_with_unset_fields_changes_nothing() {
    let config = Config::new();
    let extended = config.extend_with(&MaybeConfig::default());
    assert_eq!(extended.delay(), config.delay());
    assert_eq!(extended.app_dir(), config.app_dir());
    assert_eq!(extended.store_dir(), config.store_dir());
    assert_eq!(extended.tracking_list(), config.tracking_list());
}

#[test]
fn extend_with_set_fields_overrides() {
    let base = Config::new();
    let other = Config::from_parts(
        250,
        "/var/app".to_string(),
        "/var/app/store".to_string(),
        "/var/app/list".to_string(),
    )
    .into_maybe();
    let extended = base.extend_with(&other);
    assert_eq!(extended.delay(), 250);
    assert_eq!(extended.app_dir(), "/var/app");
    assert_eq!(extended.store_dir(), "/var/app/store");
    assert_eq!(extended.tracking_list(), "/var/app/list");
}

#[test]
fn walk_options_builders_set_one_field_each() {
    let opts = WalkDirOptions::default();
    assert_eq!(opts.max_depth, None);
    let opts = opts
        .with_max_depth(3)
        .with_min_depth(1)
        .with_follow_links(true)
        .with_contents_first(false)
        .with_max_open(64)
        .with_same_file_system(true)
        .with_sort_by_filename(true);
    assert_eq!(opts.max_depth, Some(3));
    assert_eq!(opts.min_depth, Some(1));
    assert_eq!(opts.follow_links, Some(true));
    assert_eq!(opts.contents_first, Some(false));
    assert_eq!(opts.max_open, Some(64));
    assert_eq!(opts.same_file_system, Some(true));
    assert_eq!(opts.sort_by_filename, Some(true));
}

#[test]
fn timestamp_accessors() {
    let ts = backup_store::Timestamp::new(123);
    assert_eq!(ts.as_secs(), 123);
    assert_eq!(ts.as_duration(), std::time::Duration::from_secs(123));
    assert_eq!(
        ts.as_system_time(),
        std::time::UNIX_EPOCH + std::time::Duration::from_secs(123)
    );
    let now = backup_store::current_timestamp();
    let again = backup_store::Timestamp::now();
    assert!(again.as_secs() >= now.as_secs());
}
