use quickemu_manager::models::vm::{DisplayProtocol, VMConfig, VMId, VMStatus, VM};
use quickemu_manager::services::spice_proxy::ConnectionStatus;
use quickemu_manager::web::server::{
    console_precheck, console_status_report, directories_to_scan, runtime_status,
};

fn vm(status: VMStatus, display: DisplayProtocol) -> VM {
    VM {
        id: VMId("v".to_string()),
        name: "v".to_string(),
        config_path: "/vms/v.conf".to_string(),
        config: VMConfig {
            guest_os: "linux".to_string(),
            disk_img: None,
            iso: None,
            ram: "2G".to_string(),
            cpu_cores: 2,
            disk_size: None,
            display,
            ssh_port: None,
            raw_config: String::new(),
        },
        status,
        last_modified: 0,
    }
}

#[test]
fn scanned_directories() {
    assert_eq!(
        directories_to_scan("/home/ann", "ann"),
        vec![
            "/home/ann/VMs".to_string(),
            "/home/ann/quickemu".to_string(),
            "/opt/quickemu/vms".to_string()
        ]
    );
    assert_eq!(directories_to_scan("", "")[0], "VMs");
    assert_eq!(directories_to_scan("", "")[1], "/home/quickemu");
}

#[test]
fn refreshed_status() {
    assert_eq!(runtime_status(true), VMStatus::Running { pid: 0 });
    assert_eq!(runtime_status(false), VMStatus::Stopped);
}

#[test]
fn console_checks() {
    assert_eq!(console_precheck(None, Some(5930)), Err("VM not found".to_string()));
    let stopped = vm(VMStatus::Stopped, DisplayProtocol::Spice { port: 5930 });
    assert_eq!(console_precheck(Some(&stopped), Some(5930)), Err("VM is not running".to_string()));
    let running = vm(VMStatus::Running { pid: 1 }, DisplayProtocol::Spice { port: 5930 });
    assert_eq!(console_precheck(Some(&running), Some(5930)), Ok(()));
    assert_eq!(
        console_precheck(Some(&running), None),
        Err("VM does not support console access".to_string())
    );
    let sdl = vm(VMStatus::Running { pid: 1 }, DisplayProtocol::Sdl);
    assert_eq!(
        console_precheck(Some(&sdl), Some(5930)),
        Err("VM does not support console access".to_string())
    );
}

#[test]
fn console_status_texts() {
    assert_eq!(console_status_report(None), None);
    assert_eq!(
        console_status_report(Some(ConnectionStatus::Authenticating)),
        Some("authenticating".to_string())
    );
    assert_eq!(
        console_status_report(Some(ConnectionStatus::Disconnected)),
        Some("disconnected".to_string())
    );
    assert_eq!(
        console_status_report(Some(ConnectionStatus::Error("gone".to_string()))),
        Some("error: gone".to_string())
    );
}
