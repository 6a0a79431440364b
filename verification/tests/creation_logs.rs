use quickemu_manager::web::creation::{
    create_failure_message, creation_id, creation_vm_name, CreationLogs, CreationOutcome,
};
use quickemu_manager::web::models::CreateVMRequest;

fn request(name: Option<&str>) -> CreateVMRequest {
    CreateVMRequest {
        os: "ubuntu".to_string(),
        version: "24.04".to_string(),
        edition: None,
        name: name.map(|s| s.to_string()),
        ram: None,
        disk_size: None,
        cpu_cores: None,
    }
}

#[test]
fn names_and_ids() {
    assert_eq!(creation_vm_name(&request(None)), "ubuntu-24.04");
    assert_eq!(creation_vm_name(&request(Some("mine"))), "mine");
    assert_eq!(creation_id("ubuntu-24.04", 1700000000), "ubuntu-24.04_1700000000");
}

#[test]
fn failure_messages() {
    assert_eq!(
        create_failure_message("No such file or directory"),
        "VM creation failed: quickget not found. Please install quickemu to create VMs."
    );
    assert_eq!(
        create_failure_message("quickget exited"),
        "VM creation failed: quickget not found. Please install quickemu to create VMs."
    );
    assert_eq!(create_failure_message("disk full"), "Failed to create VM: disk full");
}

#[test]
fn log_of_a_creation() {
    let mut logs = CreationLogs::new();
    assert_eq!(logs.lines("c1"), vec!["Creation process not found".to_string()]);
    logs.begin("c1".to_string(), "ubuntu", "24.04");
    logs.append("c1", "Downloading".to_string());
    logs.append_error("c1", "warn");
    logs.append("other", "ignored".to_string());
    logs.finish("c1", CreationOutcome::Succeeded { spice: Err("no file".to_string()) });
    assert_eq!(
        logs.lines("c1"),
        vec![
            "Starting VM creation: ubuntu 24.04".to_string(),
            "Executing quickget command...".to_string(),
            "Downloading".to_string(),
            "ERROR: warn".to_string(),
            "✓ VM created successfully!".to_string(),
            "⚠ Warning: Could not set SPICE display: no file".to_string(),
        ]
    );
    assert_eq!(logs.lines("other"), vec!["Creation process not found".to_string()]);
    logs.cleanup("c1");
    assert_eq!(logs.lines("c1"), vec!["Creation process not found".to_string()]);
}

#[test]
fn failed_creations() {
    let mut logs = CreationLogs::new();
    logs.begin("a".to_string(), "x", "1");
    logs.finish("a", CreationOutcome::Failed { code: Some(-2) });
    assert_eq!(logs.lines("a")[2], "✗ quickget failed with exit code: Some(-2)");
    logs.begin("b".to_string(), "x", "1");
    logs.finish("b", CreationOutcome::Failed { code: None });
    assert_eq!(logs.lines("b")[2], "✗ quickget failed with exit code: None");
    logs.begin("c".to_string(), "x", "1");
    logs.finish("c", CreationOutcome::ProcessError { error: "gone".to_string() });
    assert_eq!(logs.lines("c")[2], "✗ Process error: gone");
    logs.begin("d".to_string(), "x", "1");
    logs.finish("d", CreationOutcome::Succeeded { spice: Ok(()) });
    assert_eq!(logs.lines("d")[3], "✓ SPICE display protocol configured");
}
