use quickemu_manager::models::config::{AppConfig, Theme};
use quickemu_manager::paths::paths_equal;

#[test]
fn test_config_manager_creation() {
    // A fresh configuration lists the default VM directories of the home
    // directory.
    let config = AppConfig::with_home_dir(Some("/home/user".to_string()));
    assert!(!config.vm_directories.is_empty());
}

#[test]
fn test_vm_directory_management() {
    let mut config = AppConfig::with_home_dir(Some("/home/user".to_string()));
    let test_dir = "/tmp/test-vms".to_string();

    config.add_vm_directory(test_dir.clone());
    assert!(config.get_all_vm_directories().contains(&test_dir));

    config.set_primary_vm_directory(test_dir.clone());
    assert_eq!(config.primary_vm_directory_in(Some("/home/user".to_string())), test_dir);

    config.remove_vm_directory(&test_dir);
    assert!(!config.get_all_vm_directories().contains(&test_dir));
}

#[test]
fn default_directories_and_settings() {
    let config = AppConfig::with_home_dir(Some("/home/user".to_string()));
    assert_eq!(
        config.vm_directories,
        vec!["/home/user/.config/quickemu".to_string(), "/home/user/VMs".to_string()]
    );
    assert_eq!(config.quickemu_path, None);
    assert_eq!(config.quickget_path, None);
    assert!(config.auto_download_tools);
    assert_eq!(config.theme, Theme::System);
    assert_eq!(config.update_interval_ms, 1000);
    let without_home = AppConfig::with_home_dir(None);
    assert!(without_home.vm_directories.is_empty());
}

#[test]
fn primary_directory_fallbacks() {
    let empty = AppConfig::with_home_dir(None);
    assert_eq!(empty.primary_vm_directory_in(Some("/home/u".to_string())), "/home/u/VMs");
    assert_eq!(empty.primary_vm_directory_in(None), "/tmp/VMs");
}

#[test]
fn adding_twice_lists_once() {
    let mut config = AppConfig::with_home_dir(None);
    config.add_vm_directory("/a".to_string());
    config.add_vm_directory("/b".to_string());
    config.add_vm_directory("/a".to_string());
    assert_eq!(config.vm_directories, vec!["/a".to_string(), "/b".to_string()]);
}

#[test]
fn set_primary_moves_to_front() {
    let mut config = AppConfig::with_home_dir(None);
    config.add_vm_directory("/a".to_string());
    config.add_vm_directory("/b".to_string());
    config.add_vm_directory("/c".to_string());
    config.set_primary_vm_directory("/c".to_string());
    assert_eq!(
        config.vm_directories,
        vec!["/c".to_string(), "/a".to_string(), "/b".to_string()]
    );
    config.set_primary_vm_directory("/c".to_string());
    assert_eq!(
        config.vm_directories,
        vec!["/c".to_string(), "/a".to_string(), "/b".to_string()]
    );
    config.set_primary_vm_directory("/new".to_string());
    assert_eq!(config.vm_directories[0], "/new");
    assert_eq!(config.vm_directories.len(), 4);
}

#[test]
fn removing_keeps_order_of_others() {
    let mut config = AppConfig::with_home_dir(None);
    config.vm_directories = vec!["/a".to_string(), "/b".to_string(), "/a".to_string(), "/c".to_string()];
    config.remove_vm_directory(&"/a".to_string());
    assert_eq!(config.vm_directories, vec!["/b".to_string(), "/c".to_string()]);
    config.remove_vm_directory(&"/zzz".to_string());
    assert_eq!(config.vm_directories, vec!["/b".to_string(), "/c".to_string()]);
}

#[test]
fn remove_undoes_add() {
    let mut config = AppConfig::with_home_dir(Some("/h".to_string()));
    let before = config.vm_directories.clone();
    config.add_vm_directory("/x".to_string());
    config.remove_vm_directory(&"/x".to_string());
    assert_eq!(config.vm_directories, before);
}

#[test]
fn settings_file_location() {
    assert_eq!(
        AppConfig::config_location_in(Some("/home/u/.config".to_string())),
        Ok((
            "/home/u/.config/quickemu-manager".to_string(),
            "/home/u/.config/quickemu-manager/config.toml".to_string()
        ))
    );
    assert_eq!(
        AppConfig::config_location_in(None),
        Err("Could not find config directory".to_string())
    );
}

#[test]
fn directories_compare_as_paths() {
    let mut config = AppConfig::with_home_dir(None);
    config.add_vm_directory("/tmp/x".to_string());
    config.add_vm_directory("/tmp/x/".to_string());
    config.add_vm_directory("/tmp//x".to_string());
    config.add_vm_directory("/tmp/./x".to_string());
    assert_eq!(config.vm_directories, vec!["/tmp/x".to_string()]);
    config.remove_vm_directory(&"/tmp/x/".to_string());
    assert!(config.vm_directories.is_empty());
}

#[test]
fn set_primary_replaces_the_same_path() {
    let mut config = AppConfig::with_home_dir(None);
    config.add_vm_directory("/a".to_string());
    config.add_vm_directory("/b/".to_string());
    config.set_primary_vm_directory("/b".to_string());
    assert_eq!(config.vm_directories, vec!["/b".to_string(), "/a".to_string()]);
}

#[test]
fn relative_and_absolute_paths_differ() {
    let mut config = AppConfig::with_home_dir(None);
    config.add_vm_directory("/vms".to_string());
    config.add_vm_directory("vms".to_string());
    config.add_vm_directory("./vms".to_string());
    config.add_vm_directory("vms/.".to_string());
    assert_eq!(
        config.vm_directories,
        vec!["/vms".to_string(), "vms".to_string(), "./vms".to_string()]
    );
}

#[test]
fn paths_equal_follows_path_components() {
    assert!(paths_equal("/tmp/x", "/tmp/x/"));
    assert!(paths_equal("a//b", "a/b"));
    assert!(paths_equal("a/./b", "a/b"));
    assert!(paths_equal("./a", "./a/"));
    assert!(!paths_equal("./a", "a"));
    assert!(!paths_equal("/a", "a"));
    assert!(!paths_equal("a/../b", "b"));
    assert!(paths_equal("vms/.", "vms"));
}

#[test]
fn set_primary_grows_the_list_only_for_a_new_path() {
    let mut config = AppConfig::with_home_dir(None);
    config.add_vm_directory("/a".to_string());
    config.add_vm_directory("/b".to_string());
    config.set_primary_vm_directory("/b".to_string());
    assert_eq!(config.vm_directories.len(), 2);
    config.set_primary_vm_directory("/c".to_string());
    assert_eq!(config.vm_directories, vec!["/c".to_string(), "/b".to_string(), "/a".to_string()]);
}
