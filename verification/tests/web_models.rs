use quickemu_manager::models::config::{AppConfig, Theme};
use quickemu_manager::models::vm::{DisplayProtocol, VMConfig, VMId, VMStatus as CoreStatus, VM as CoreVM};
use quickemu_manager::services::spice_proxy::ConsoleInfo as CoreConsoleInfo;
use quickemu_manager::web::api::{
    default_base_url, list_vms_result, start_vm_result, stop_vm_result, vm_action_url,
    vm_status_result, vms_url, ApiResponse, VMStatus as ApiStatus, VM as ApiVM,
};
use quickemu_manager::web::models::{
    extract_version, parse_ram_size, ram_size_convertible, AppConfigDto, ConsoleInfo, CreateVMRequest, ThemeDto,
    VMStatus, VMStatusExt, VM,
};

fn core_vm(ram: &str, guest_os: &str) -> CoreVM {
    CoreVM {
        id: VMId("ubuntu-24.04".to_string()),
        name: "ubuntu-24.04".to_string(),
        config_path: "/vms/ubuntu-24.04.conf".to_string(),
        config: VMConfig {
            guest_os: guest_os.to_string(),
            disk_img: None,
            iso: None,
            ram: ram.to_string(),
            cpu_cores: 4,
            disk_size: None,
            display: DisplayProtocol::Spice { port: 5930 },
            ssh_port: Some(22220),
            raw_config: String::new(),
        },
        status: CoreStatus::Running { pid: 99 },
        last_modified: 0,
    }
}

#[test]
fn ram_sizes() {
    assert_eq!(parse_ram_size("4G"), 4096);
    assert_eq!(parse_ram_size("2g"), 2048);
    assert_eq!(parse_ram_size(" 512M "), 512);
    assert_eq!(parse_ram_size("1024m"), 1024);
    assert_eq!(parse_ram_size("lots"), 4096);
    assert_eq!(parse_ram_size(""), 4096);
    assert_eq!(parse_ram_size("G"), 4096);
}

#[test]
fn ram_sizes_that_overflow_are_detected() {
    assert!(ram_size_convertible("4194303G"));
    assert!(!ram_size_convertible("4194304G"));
    assert!(ram_size_convertible("99999999999G"));
    assert!(ram_size_convertible("512M"));
    assert_eq!(parse_ram_size("4194303G"), 4194303 * 1024);
}

#[test]
fn versions_of_guest_os() {
    assert_eq!(extract_version("ubuntu-24.04"), "24.04");
    assert_eq!(extract_version("centos-stream-9"), "9");
    assert_eq!(extract_version("windows"), "N/A");
    assert_eq!(extract_version("trailing-"), "");
}

#[test]
fn web_vm_from_core() {
    let vm = VM::from_core(&core_vm("8G", "ubuntu-24.04"));
    assert_eq!(vm.id, "ubuntu-24.04");
    assert_eq!(vm.os, "ubuntu-24.04");
    assert_eq!(vm.version, "24.04");
    assert_eq!(vm.status, VMStatus::Running { pid: 99 });
    assert_eq!(vm.cpu_cores, 4);
    assert_eq!(vm.ram_mb, 8192);
    assert_eq!(vm.disk_size, "N/A");
    assert_eq!(vm.config_path, "/vms/ubuntu-24.04.conf");
}

#[test]
fn status_labels() {
    assert!(VMStatus::Running { pid: 1 }.is_running());
    assert!(!VMStatus::Stopped.is_running());
    assert_eq!(VMStatus::Running { pid: 1 }.display_text(), "Running");
    assert_eq!(VMStatus::Starting.display_text(), "Starting...");
    assert_eq!(VMStatus::Stopping.display_text(), "Stopping...");
    assert_eq!(VMStatus::Error("x".to_string()).display_text(), "Error");
}

#[test]
fn creation_request_defaults() {
    let t = CreateVMRequest {
        os: "fedora".to_string(),
        version: "40".to_string(),
        edition: None,
        name: None,
        ram: None,
        disk_size: None,
        cpu_cores: None,
    }
    .into_template();
    assert_eq!(t.name, "fedora 40");
    assert_eq!(t.ram, "4G");
    assert_eq!(t.disk_size, "25G");
    assert_eq!(t.cpu_cores, 4);
}

#[test]
fn console_info_copy() {
    let core = CoreConsoleInfo {
        websocket_url: "ws://127.0.0.1:6080".to_string(),
        auth_token: "t".to_string(),
        connection_id: "vm:6080".to_string(),
    };
    let info = ConsoleInfo::from_core(core);
    assert_eq!(info.websocket_url, "ws://127.0.0.1:6080");
    assert_eq!(info.connection_id, "vm:6080");
}

#[test]
fn settings_round_trip() {
    let mut config = AppConfig::with_home_dir(Some("/h".to_string()));
    config.theme = Theme::Dark;
    let dto = AppConfigDto::from_config(config.clone());
    assert_eq!(dto.theme, ThemeDto::Dark);
    assert_eq!(dto.vm_directories, config.vm_directories);
    let back = dto.into_config();
    assert_eq!(back, config);
    let empty = AppConfigDto { vm_directories: vec![], auto_download_tools: false, theme: ThemeDto::Light };
    assert_eq!(empty.primary_vm_directory_in(Some("/home/u".to_string())), "/home/u/VMs");
    assert_eq!(empty.primary_vm_directory_in(None), "/tmp/VMs");
}

#[test]
fn api_responses() {
    let vm = ApiVM {
        id: "a".to_string(),
        name: "a".to_string(),
        status: ApiStatus::Stopped,
        os: "ubuntu".to_string(),
        version: "24.04".to_string(),
        cpu_cores: 2,
        ram_mb: 2048,
    };
    let ok = ApiResponse { success: true, data: Some(vec![vm.clone()]), error: None };
    assert_eq!(list_vms_result(ok), Ok(vec![vm]));
    let empty: ApiResponse<Vec<ApiVM>> = ApiResponse { success: true, data: None, error: None };
    assert_eq!(list_vms_result(empty), Ok(vec![]));
    let failed: ApiResponse<Vec<ApiVM>> = ApiResponse { success: false, data: None, error: None };
    assert_eq!(list_vms_result(failed), Err("Unknown error".to_string()));

    assert_eq!(start_vm_result(ApiResponse { success: true, data: None, error: None }), Ok(()));
    assert_eq!(
        start_vm_result(ApiResponse { success: false, data: None, error: None }),
        Err("Failed to start VM".to_string())
    );
    assert_eq!(
        stop_vm_result(ApiResponse { success: false, data: None, error: Some("busy".to_string()) }),
        Err("busy".to_string())
    );
    assert_eq!(
        stop_vm_result(ApiResponse { success: false, data: None, error: None }),
        Err("Failed to stop VM".to_string())
    );
    assert_eq!(
        vm_status_result(ApiResponse { success: true, data: None, error: None }),
        Ok(ApiStatus::Stopped)
    );
    assert_eq!(
        vm_status_result(ApiResponse { success: true, data: Some(ApiStatus::Running), error: None }),
        Ok(ApiStatus::Running)
    );
    assert_eq!(
        vm_status_result(ApiResponse { success: false, data: Some(ApiStatus::Running), error: None }),
        Err("Failed to get VM status".to_string())
    );
    assert_eq!(ApiStatus::Starting.text(), "Starting");
}

#[test]
fn api_urls() {
    let base = default_base_url();
    assert_eq!(base, "http://127.0.0.1:3000");
    assert_eq!(vms_url(&base), "http://127.0.0.1:3000/api/vms");
    assert_eq!(vm_action_url(&base, "win", "start"), "http://127.0.0.1:3000/api/vms/win/start");
}

#[test]
fn conversion_is_offered_only_when_ram_fits() {
    let vm = VM::try_from_core(&core_vm("8G", "ubuntu-24.04")).unwrap();
    assert_eq!(vm.ram_mb, 8192);
    assert_eq!(vm.version, "24.04");
    assert!(VM::try_from_core(&core_vm("5000000G", "ubuntu-24.04")).is_none());
}
