use quickemu_manager::models::vm::{DisplayProtocol, VMConfig, VMId, VMStatus, VMTemplate, VM};
use quickemu_manager::services::vm_manager::{
    creation_command_text, creation_message, is_vm_qemu_process, ps_line_vm_pid, ps_vm_pids,
    plan_stop, vm_status_from, CreationEvent, LaunchCommand, ProcessInfo, StopPlan, VMManager,
    VmError,
};

fn create_test_vm_manager() -> VMManager {
    VMManager::with_paths("/usr/bin/echo".to_string(), Some("/usr/bin/echo".to_string()))
}

fn create_test_vm() -> VM {
    let config_content = "\nguest_os=\"ubuntu\"\ncpu_cores=2\nram=\"2G\"\n        ";
    VM {
        id: VMId("test-vm".to_string()),
        name: "Test VM".to_string(),
        config_path: "/tmp/vms/test-vm.conf".to_string(),
        config: VMConfig {
            guest_os: "ubuntu".to_string(),
            disk_img: None,
            iso: None,
            ram: "2G".to_string(),
            cpu_cores: 2,
            disk_size: None,
            display: DisplayProtocol::Spice { port: 5930 },
            ssh_port: None,
            raw_config: config_content.to_string(),
        },
        status: VMStatus::Stopped,
        last_modified: 0,
    }
}

#[test]
fn test_vm_manager_creation() {
    let vm_manager = create_test_vm_manager();
    assert_eq!(vm_manager.get_quickemu_path(), "/usr/bin/echo");
    assert_eq!(vm_manager.get_quickget_path().map(|s| s.as_str()), Some("/usr/bin/echo"));
}

#[test]
fn test_vm_manager_with_paths() {
    let quickemu_path = "/custom/quickemu".to_string();
    let quickget_path = Some("/custom/quickget".to_string());

    let vm_manager = VMManager::with_paths(quickemu_path.clone(), quickget_path.clone());

    assert_eq!(vm_manager.get_quickemu_path(), &quickemu_path);
    assert_eq!(vm_manager.get_quickget_path(), quickget_path.as_ref());
}

#[test]
fn test_vm_status_stopped_initially() {
    // No process of the VM in the table and none in the ps listing.
    let status = vm_status_from(&Vec::new(), Some(""), "non-existent-vm");
    assert_eq!(status, VMStatus::Stopped);
}

#[test]
fn test_stop_non_existent_vm() {
    let result = plan_stop(&Vec::new(), Some(""), "non-existent-vm");
    assert!(result.is_err());
    assert!(result.unwrap_err().message().contains("VM process not found"));
}

#[test]
fn test_start_already_running_vm() {
    let mut vm = create_test_vm();
    vm.status = VMStatus::Running { pid: 1234 };

    let vm_manager = create_test_vm_manager();
    let result = vm_manager.start_command(&vm);

    assert!(result.is_err());
    assert!(result.unwrap_err().message().contains("already running"));
}

#[test]
fn test_is_vm_running() {
    let status = vm_status_from(&Vec::new(), None, "test-vm");
    assert!(!matches!(status, VMStatus::Running { .. }));
}

#[test]
fn test_vm_template_creation() {
    let template = VMTemplate {
        name: "Ubuntu 22.04 Desktop".to_string(),
        os: "ubuntu".to_string(),
        version: "22.04".to_string(),
        edition: None,
        ram: "4G".to_string(),
        disk_size: "64G".to_string(),
        cpu_cores: 2,
    };

    assert_eq!(template.os, "ubuntu");
    assert_eq!(template.version, "22.04");
    assert_eq!(template.name, "Ubuntu 22.04 Desktop".to_string());
}

#[test]
fn test_default_vm_manager() {
    let vm_manager = VMManager::default();
    assert_eq!(vm_manager.get_quickemu_path(), "quickemu");
    assert!(vm_manager.is_quickget_available());
}

#[test]
fn start_command_runs_quickemu_in_config_dir() {
    let vm = create_test_vm();
    let cmd = create_test_vm_manager().start_command(&vm).unwrap();
    assert_eq!(
        cmd,
        LaunchCommand {
            program: "/usr/bin/echo".to_string(),
            args: vec!["--vm".to_string(), "/tmp/vms/test-vm.conf".to_string()],
            current_dir: "/tmp/vms".to_string(),
        }
    );
}

#[test]
fn qemu_process_is_found_by_config_name() {
    let procs = vec![
        ProcessInfo { pid: 10, cmd: vec!["/usr/bin/bash".to_string()] },
        ProcessInfo {
            pid: 42,
            cmd: vec![
                "qemu-system-x86_64".to_string(),
                "-name".to_string(),
                "test-vm.conf".to_string(),
            ],
        },
    ];
    assert!(is_vm_qemu_process(&procs[1].cmd, "test-vm"));
    assert!(!is_vm_qemu_process(&procs[0].cmd, "test-vm"));
    assert_eq!(vm_status_from(&procs, None, "test-vm"), VMStatus::Running { pid: 42 });
    assert_eq!(plan_stop(&procs, None, "test-vm"), Ok(StopPlan::KillProcess(42)));
}

#[test]
fn quickemu_wrapper_counts_as_running_but_is_not_killed() {
    let procs = vec![ProcessInfo {
        pid: 7,
        cmd: vec!["/usr/bin/quickemu".to_string(), "--vm".to_string(), "test-vm.conf".to_string()],
    }];
    assert_eq!(vm_status_from(&procs, None, "test-vm"), VMStatus::Running { pid: 7 });
    assert_eq!(plan_stop(&procs, None, "test-vm"), Err(VmError::ProcessNotFound));
}

#[test]
fn ps_listing_gives_pids() {
    let ps = "USER PID %CPU\nroot 4242 1.0 qemu-system-x86_64 -name test-vm\nroot 5 0.0 bash\n";
    assert_eq!(ps_line_vm_pid("root 4242 1.0 qemu-system-x86_64 -name test-vm", "test-vm"), Some(4242));
    assert_eq!(ps_vm_pids(ps, "test-vm"), vec![4242]);
    assert_eq!(vm_status_from(&Vec::new(), Some(ps), "test-vm"), VMStatus::Running { pid: 4242 });
    assert_eq!(plan_stop(&Vec::new(), Some(ps), "test-vm"), Ok(StopPlan::KillPids(vec![4242])));
}

#[test]
fn creation_requires_quickget() {
    let manager = VMManager::with_paths("/usr/bin/quickemu".to_string(), None);
    let template = VMTemplate {
        name: "x".to_string(),
        os: "ubuntu".to_string(),
        version: "22.04".to_string(),
        edition: None,
        ram: "4G".to_string(),
        disk_size: "64G".to_string(),
        cpu_cores: 2,
    };
    assert_eq!(manager.creation_command(&template, "/vms"), Err(VmError::QuickgetUnavailable));
    assert_eq!(VmError::QuickgetUnavailable.message(), "quickget not available");
}

#[test]
fn creation_command_passes_edition() {
    let template = VMTemplate {
        name: "x".to_string(),
        os: "windows".to_string(),
        version: "11".to_string(),
        edition: Some("Pro".to_string()),
        ram: "8G".to_string(),
        disk_size: "64G".to_string(),
        cpu_cores: 4,
    };
    let cmd = create_test_vm_manager().creation_command(&template, "/vms").unwrap();
    assert_eq!(cmd.args, vec!["windows".to_string(), "11".to_string(), "Pro".to_string()]);
    assert_eq!(cmd.current_dir, "/vms");
    assert_eq!(VMManager::template_config_path(&template, "/vms"), "/vms/windows-11.conf");
}

#[test]
fn display_clients() {
    let vm = create_test_vm();
    assert_eq!(
        VMManager::display_client(&vm),
        Ok(("spicy".to_string(), "spice://localhost:5930".to_string()))
    );
    let mut vnc = create_test_vm();
    vnc.config.display = DisplayProtocol::Vnc { port: 5900 };
    assert_eq!(
        VMManager::display_client(&vnc),
        Ok(("vncviewer".to_string(), "localhost:5900".to_string()))
    );
    let mut none = create_test_vm();
    none.config.display = DisplayProtocol::NoDisplay;
    assert_eq!(VMManager::display_client(&none), Err(VmError::DisplayNotSupported));
}

#[test]
fn spice_port_detection() {
    assert_eq!(VMManager::spice_port_candidates(), (5930u16..5940).collect::<Vec<u16>>());
    let mut open = vec![false; 10];
    open[3] = true;
    assert_eq!(VMManager::detected_spice_port(&VMStatus::Running { pid: 1 }, &open), Some(5933));
    assert_eq!(VMManager::detected_spice_port(&VMStatus::Stopped, &open), None);
}

#[test]
fn display_urls() {
    let vm = create_test_vm();
    assert_eq!(vm.get_display_url(), Some("spice://localhost:5930".to_string()));
    assert!(!vm.is_running());
}

#[test]
fn error_messages() {
    assert_eq!(
        VmError::NoSpiceServer("win".to_string()).message(),
        "VM 'win' does not have an active SPICE server"
    );
    assert_eq!(
        VmError::CreationFailed("boom".to_string()).message(),
        "VM creation failed: boom"
    );
}

#[test]
fn creation_progress_lines() {
    assert!(VMManager::is_final_creation_line("VM created successfully: /vms/a.conf"));
    assert!(VMManager::is_final_creation_line("VM creation failed"));
    assert!(!VMManager::is_final_creation_line("Downloading 10%"));
    assert_eq!(
        VMManager::creation_result("/vms/a.conf".to_string(), true, &vec![]),
        Ok("/vms/a.conf".to_string())
    );
    assert_eq!(
        VMManager::creation_result(
            "/vms/a.conf".to_string(),
            false,
            &vec!["one".to_string(), "two".to_string()]
        ),
        Err(VmError::CreationFailed("one\ntwo".to_string()))
    );
}

#[test]
fn console_access_and_port() {
    let mut vm = create_test_vm();
    assert!(!VMManager::supports_console_access(&vm, Some(5930)));
    vm.status = VMStatus::Running { pid: 5 };
    assert!(VMManager::supports_console_access(&vm, Some(5930)));
    assert!(!VMManager::supports_console_access(&vm, None));
    assert_eq!(VMManager::console_port("vm", false, Some(5930)), Err(VmError::ProxyNotInitialized));
    assert_eq!(VMManager::console_port("vm", true, Some(5931)), Ok(5931));
    assert_eq!(
        VMManager::console_port("vm", true, None),
        Err(VmError::NoSpiceServer("vm".to_string()))
    );
}

#[test]
fn background_creation_messages() {
    assert_eq!(creation_message(&CreationEvent::Started), "Quickget process started successfully");
    assert_eq!(creation_message(&CreationEvent::Stdout("x".to_string())), "STDOUT: x");
    assert_eq!(creation_message(&CreationEvent::Stderr("y".to_string())), "STDERR: y");
    assert_eq!(
        creation_message(&CreationEvent::Succeeded { config_path: "/v/a.conf".to_string() }),
        "VM created successfully: /v/a.conf"
    );
    assert_eq!(
        creation_message(&CreationEvent::Failed { code: None }),
        "VM creation failed with exit code: -1"
    );
    assert_eq!(
        creation_message(&CreationEvent::Failed { code: Some(2) }),
        "VM creation failed with exit code: 2"
    );
    assert_eq!(
        creation_message(&CreationEvent::SpawnFailed { error: "e".to_string(), dir: "/v".to_string() }),
        "Failed to start quickget: e (working dir: /v)"
    );
    assert_eq!(
        creation_message(&CreationEvent::DirectoryFailed { dir: "/v".to_string(), error: "e".to_string() }),
        "Failed to create directory /v: e"
    );
    assert_eq!(
        creation_message(&CreationEvent::WaitFailed("w".to_string())),
        "Error waiting for process: w"
    );
    let template = VMTemplate {
        name: "x".to_string(),
        os: "windows".to_string(),
        version: "11".to_string(),
        edition: Some("Pro".to_string()),
        ram: "8G".to_string(),
        disk_size: "64G".to_string(),
        cpu_cores: 4,
    };
    assert_eq!(creation_command_text("/bin/quickget", &template), "/bin/quickget windows 11 Pro");
}
