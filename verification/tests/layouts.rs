use unidirs::{Directories, LocalDirs, OsFamily, ServiceDirs, UnifiedDirs, UserDirs};

#[test]
fn local_dirs_at_base() {
    let dirs = LocalDirs::new_at("/tmp/base");
    assert_eq!(dirs.cache_dir(), "/tmp/base/cache");
    assert_eq!(dirs.config_dir(), "/tmp/base/config");
    assert_eq!(dirs.data_dir(), "/tmp/base/data");
}

#[test]
fn local_dirs_at_base_with_trailing_separator() {
    let dirs = LocalDirs::new_at("/tmp/base/");
    assert_eq!(dirs.cache_dir(), "/tmp/base/cache");
    assert_eq!(dirs.config_dir(), "/tmp/base/config");
    assert_eq!(dirs.data_dir(), "/tmp/base/data");
}

#[test]
fn local_dirs_at_empty_base() {
    let dirs = LocalDirs::new_at("");
    assert_eq!(dirs.cache_dir(), "cache");
    assert_eq!(dirs.config_dir(), "config");
    assert_eq!(dirs.data_dir(), "data");
}

#[test]
fn local_dirs_from_working_directory() {
    let dirs = LocalDirs::new(Some("/work".to_string())).unwrap();
    assert_eq!(dirs.cache_dir(), "/work/.local/cache");
    assert_eq!(dirs.config_dir(), "/work/.local/config");
    assert_eq!(dirs.data_dir(), "/work/.local/data");
}

#[test]
fn local_dirs_without_working_directory() {
    assert!(LocalDirs::new(None).is_none());
}

#[test]
fn service_dirs_unix_family() {
    let dirs = ServiceDirs::new(OsFamily::Unix, "example", "app");
    assert_eq!(dirs.cache_dir(), "/var/cache/app");
    assert_eq!(dirs.config_dir(), "/etc/app");
    assert_eq!(dirs.data_dir(), "/var/lib/app");
}

#[test]
fn service_dirs_unix_family_ignores_organization() {
    let with_org = ServiceDirs::new(OsFamily::Unix, "example", "app");
    let without_org = ServiceDirs::new(OsFamily::Unix, "", "app");
    assert_eq!(with_org.cache_dir(), without_org.cache_dir());
    assert_eq!(with_org.config_dir(), without_org.config_dir());
    assert_eq!(with_org.data_dir(), without_org.data_dir());
}

#[test]
fn service_dirs_windows_family() {
    let dirs = ServiceDirs::new(OsFamily::Windows, "example", "app");
    assert_eq!(
        dirs.cache_dir(),
        "C:\\Windows\\ServiceProfiles\\NetworkService\\AppData\\Local\\example/app\\cache"
    );
    assert_eq!(
        dirs.config_dir(),
        "C:\\Windows\\ServiceProfiles\\NetworkService\\AppData\\Roaming\\example/app\\config"
    );
    assert_eq!(
        dirs.data_dir(),
        "C:\\Windows\\ServiceProfiles\\NetworkService\\AppData\\Roaming\\example/app\\data"
    );
}

#[test]
fn service_dirs_accept_degenerate_identity() {
    let dirs = ServiceDirs::new(OsFamily::Unix, "", "");
    assert_eq!(dirs.cache_dir(), "/var/cache/");
    assert_eq!(dirs.config_dir(), "/etc/");
    assert_eq!(dirs.data_dir(), "/var/lib/");
}

#[test]
fn user_dirs_keep_resolved_paths() {
    let dirs = UserDirs::from_resolved(
        "/home/alice/.cache/app".to_string(),
        "/home/alice/.config/app".to_string(),
        "/home/alice/.local/share/app".to_string(),
    );
    assert_eq!(dirs.cache_dir(), "/home/alice/.cache/app");
    assert_eq!(dirs.config_dir(), "/home/alice/.config/app");
    assert_eq!(dirs.data_dir(), "/home/alice/.local/share/app");
}

#[test]
fn user_dirs_follow_platform_convention() {
    // The platform decides whether a home directory resolves; when it does,
    // every per-user directory ends in the platform's project path, which for
    // this identity ends in the application name.
    if let Some(dirs) = UserDirs::new("com", "example", "app") {
        assert!(dirs.cache_dir().ends_with("app"));
        assert!(dirs.config_dir().ends_with("app"));
        assert!(dirs.data_dir().ends_with("app"));
    }
}

#[test]
fn unified_local_at_round_trip() {
    let wrapped = UnifiedDirs::local_at("/tmp/base");
    let direct = LocalDirs::new_at("/tmp/base");
    assert_eq!(wrapped.cache_dir(), direct.cache_dir());
    assert_eq!(wrapped.config_dir(), direct.config_dir());
    assert_eq!(wrapped.data_dir(), direct.data_dir());
}

#[test]
fn unified_local_propagates_missing_working_directory() {
    assert!(UnifiedDirs::local(None).is_none());
    let dirs = UnifiedDirs::local(Some("/work".to_string())).unwrap();
    assert_eq!(dirs.data_dir(), "/work/.local/data");
}

#[test]
fn unified_service_matches_service_dirs() {
    let wrapped = UnifiedDirs::service(OsFamily::Unix, "example", "app");
    let direct = ServiceDirs::new(OsFamily::Unix, "example", "app");
    assert_eq!(wrapped.cache_dir(), direct.cache_dir());
    assert_eq!(wrapped.config_dir(), direct.config_dir());
    assert_eq!(wrapped.data_dir(), direct.data_dir());
}

#[test]
fn unified_user_matches_user_dirs() {
    let wrapped = UnifiedDirs::user("com", "example", "app");
    let direct = UserDirs::new("com", "example", "app");
    assert_eq!(wrapped.is_some(), direct.is_some());
    if let (Some(w), Some(d)) = (wrapped, direct) {
        assert_eq!(w.cache_dir(), d.cache_dir());
        assert_eq!(w.config_dir(), d.config_dir());
        assert_eq!(w.data_dir(), d.data_dir());
    }
}

#[test]
fn join_inserts_a_single_separator() {
    assert_eq!(unidirs::join("/tmp/base", "cache"), "/tmp/base/cache");
    assert_eq!(unidirs::join("/tmp/base/", "cache"), "/tmp/base/cache");
    assert_eq!(unidirs::join("", "cache"), "cache");
}

#[test]
fn layouts_compare_structurally() {
    let a = LocalDirs::new_at("/a");
    let b = LocalDirs::new_at("/b");
    assert_eq!(a.clone(), a);
    assert!(a < b);
    let local = UnifiedDirs::local_at("/a");
    let service = UnifiedDirs::service(OsFamily::Unix, "example", "app");
    assert!(local < service);
}
