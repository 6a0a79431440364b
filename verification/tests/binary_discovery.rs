use quickemu_manager::environment::data_local_dir;
use quickemu_manager::services::binary_discovery::{
    is_executable_mode, BinaryDiscovery, DiscoveryError, LookupStep, LookupStrategy,
};

#[test]
fn test_binary_discovery_with_paths() {
    let quickemu_path = Some("/usr/bin/echo".to_string());
    let quickget_path = Some("/usr/bin/true".to_string());

    let discovery = BinaryDiscovery::with_paths(quickemu_path.clone(), quickget_path.clone());

    assert_eq!(discovery.quickemu_path().ok().cloned(), quickemu_path);
    assert_eq!(discovery.quickget_path().cloned(), quickget_path);
}

#[test]
fn test_has_binaries() {
    let discovery = BinaryDiscovery::with_paths(Some("/usr/bin/echo".to_string()), None);

    assert!(discovery.has_quickemu());
    assert!(!discovery.has_quickget());
}

#[test]
fn test_get_paths() {
    let quickemu_path = Some("/usr/bin/echo".to_string());
    let quickget_path = Some("/usr/bin/true".to_string());

    let discovery = BinaryDiscovery::with_paths(quickemu_path.clone(), quickget_path.clone());
    let (qemu_path, qget_path) = discovery.get_paths();

    assert_eq!(qemu_path, quickemu_path);
    assert_eq!(qget_path, quickget_path);
}

#[test]
fn test_is_executable() {
    // An executable file: rwxr-xr-x
    assert!(is_executable_mode(Some(0o100755)));
}

#[test]
fn test_discovery_info() {
    let discovery = BinaryDiscovery::with_paths(Some("/usr/bin/echo".to_string()), None);

    let info = discovery.discovery_info();
    assert!(info.contains("quickemu"));
    assert!(info.contains("quickget"));
    assert!(info.contains("✓"));
    assert!(info.contains("✗"));
}

#[test]
fn test_find_binary_in_local_quickemu() {
    // No such file: no permission mode to report.
    let result = BinaryDiscovery::find_binary_in_local_quickemu(
        data_local_dir(),
        "definitely_not_a_real_binary",
        None,
    );
    assert!(result.is_none());
}

#[test]
fn test_get_quickemu_dir() {
    let dir = BinaryDiscovery::get_quickemu_dir();
    if let Some(path) = dir {
        assert!(path.contains("quickemu-manager"));
        assert!(path.contains("quickemu"));
    }
}

#[test]
fn discovery_without_binaries_reports_both_missing() {
    let discovery = BinaryDiscovery::new_without_discovery();
    let info = discovery.discovery_info_in(None);
    assert_eq!(
        info,
        "quickemu: NOT FOUND ✗ (will attempt download)\nquickget: NOT FOUND ✗ (will attempt download)\n"
    );
    assert_eq!(discovery.get_paths(), (None, None));
}

#[test]
fn discovery_info_names_local_directory() {
    let discovery = BinaryDiscovery::with_paths(Some("/usr/bin/quickemu".to_string()), Some("/usr/bin/quickget".to_string()));
    let info = discovery.discovery_info_in(Some("/home/u/.local/share".to_string()));
    assert_eq!(
        info,
        "quickemu: /usr/bin/quickemu ✓\nquickget: /usr/bin/quickget ✓\nLocal quickemu directory: /home/u/.local/share/quickemu-manager/quickemu\n"
    );
}

#[test]
fn missing_quickemu_is_an_error() {
    let discovery = BinaryDiscovery::with_paths(None, Some("/usr/bin/quickget".to_string()));
    assert!(matches!(discovery.quickemu_path(), Err(DiscoveryError::QuickemuNotFound)));
    let err = discovery.quickemu_path().unwrap_err();
    assert_eq!(
        err.message(),
        "quickemu not found. Please install quickemu or ensure it's in your PATH."
    );
}

#[test]
fn validate_checks_execute_bits() {
    let discovery = BinaryDiscovery::with_paths(Some("/usr/bin/quickemu".to_string()), Some("/usr/bin/quickget".to_string()));
    assert!(discovery.validate(Some(0o755), Some(0o755)).is_ok());
    assert!(discovery.validate(Some(0o644), Some(0o755)).is_err());
    assert!(discovery.validate(Some(0o755), Some(0o644)).is_err());
    assert!(discovery.validate(None, Some(0o755)).is_err());
    let no_quickget = BinaryDiscovery::with_paths(Some("/usr/bin/quickemu".to_string()), None);
    assert!(no_quickget.validate(Some(0o700), None).is_ok());
}

#[test]
fn execute_bits_of_modes() {
    assert!(is_executable_mode(Some(0o001)));
    assert!(is_executable_mode(Some(0o010)));
    assert!(is_executable_mode(Some(0o100)));
    assert!(!is_executable_mode(Some(0o666)));
    assert!(!is_executable_mode(None));
}

#[test]
fn local_binary_found_only_when_executable() {
    let found = BinaryDiscovery::find_binary_in_local_quickemu(
        Some("/data".to_string()),
        "quickget",
        Some(0o755),
    );
    assert_eq!(found, Some("/data/quickemu-manager/quickemu/quickget".to_string()));
    let not_exec = BinaryDiscovery::find_binary_in_local_quickemu(
        Some("/data".to_string()),
        "quickget",
        Some(0o644),
    );
    assert_eq!(not_exec, None);
}

#[test]
fn archive_members_map_to_binaries() {
    assert_eq!(
        BinaryDiscovery::archive_member_target("quickemu-4.9.7/quickemu"),
        Some("quickemu".to_string())
    );
    assert_eq!(
        BinaryDiscovery::archive_member_target("quickemu-4.9.7/quickget"),
        Some("quickget".to_string())
    );
    assert_eq!(BinaryDiscovery::archive_member_target("quickemu-4.9.7/README.md"), None);
}

#[test]
fn lookup_order() {
    assert_eq!(BinaryDiscovery::first_lookup(), LookupStep::Try(LookupStrategy::SearchPath));
    assert_eq!(
        BinaryDiscovery::next_lookup(LookupStrategy::SearchPath, None),
        LookupStep::Try(LookupStrategy::WhichCommand)
    );
    assert_eq!(
        BinaryDiscovery::next_lookup(LookupStrategy::SearchPath, Some("/bin/quickemu".to_string())),
        LookupStep::Found("/bin/quickemu".to_string())
    );
}

#[test]
fn which_output_is_trimmed() {
    assert_eq!(
        BinaryDiscovery::which_command_result(true, "/usr/bin/quickemu\n"),
        Some("/usr/bin/quickemu".to_string())
    );
    assert_eq!(BinaryDiscovery::which_command_result(false, "/usr/bin/quickemu\n"), None);
}
