use quickemu_manager::models::vm::{DisplayProtocol, VMConfig, VMId, VMStatus, VM};
use quickemu_manager::web::config_file::{
    apply_edit, check_editable, created_config_path, edit_config, ensure_spice_display_in,
    rename_in_config, replace_selected_lines, set_cpu_cores_in_config, set_ram_in_config,
};
use quickemu_manager::web::models::EditVMRequest;

const CONF: &str = "#!/usr/bin/quickemu --vm\n# ubuntu-24.04\nguest_os=\"linux\"\nram=\"4G\"\ncpu_cores=2\n";

fn vm(status: VMStatus) -> VM {
    VM {
        id: VMId("ubuntu-24.04".to_string()),
        name: "ubuntu-24.04".to_string(),
        config_path: "/vms/ubuntu-24.04.conf".to_string(),
        config: VMConfig {
            guest_os: "linux".to_string(),
            disk_img: None,
            iso: None,
            ram: "4G".to_string(),
            cpu_cores: 2,
            disk_size: None,
            display: DisplayProtocol::Sdl,
            ssh_port: None,
            raw_config: CONF.to_string(),
        },
        status,
        last_modified: 0,
    }
}

#[test]
fn rename_rewrites_comment_naming_vm() {
    let r = rename_in_config(CONF, "ubuntu-24.04", "work");
    assert_eq!(
        r,
        "#!/usr/bin/quickemu --vm\n# work\nguest_os=\"linux\"\nram=\"4G\"\ncpu_cores=2"
    );
}

#[test]
fn ram_line_is_replaced() {
    let r = set_ram_in_config(CONF, "8G");
    assert!(r.contains("ram=\"8G\""));
    assert!(!r.contains("ram=\"4G\""));
    // Without a ram line nothing names the size.
    let r = set_ram_in_config("guest_os=\"linux\"\n", "8G");
    assert_eq!(r, "guest_os=\"linux\"");
}

#[test]
fn cpu_cores_replaced_or_appended() {
    let r = set_cpu_cores_in_config(CONF, 6);
    assert!(r.ends_with("cpu_cores=6"));
    assert!(!r.contains("cpu_cores=2"));
    let r = set_cpu_cores_in_config("guest_os=\"linux\"\r\nram=\"4G\"\n", 3);
    assert_eq!(r, "guest_os=\"linux\"\nram=\"4G\"\ncpu_cores=3");
}

#[test]
fn indented_keys_are_found() {
    let (r, found) = replace_selected_lines("  ram=\"1G\"\nx", "ram=", "", "ram=\"2G\"");
    assert!(found);
    assert_eq!(r, "ram=\"2G\"\nx");
    let (_, found) = replace_selected_lines("x=1", "ram=", "", "r");
    assert!(!found);
}

#[test]
fn spice_display_ensured() {
    assert_eq!(ensure_spice_display_in("display_server=\"spice\"\n"), None);
    assert_eq!(
        ensure_spice_display_in("a=1\ndisplay_server=\"sdl\"\n"),
        Some("a=1\ndisplay_server=\"spice\"".to_string())
    );
    assert_eq!(
        ensure_spice_display_in("a=1"),
        Some("a=1\ndisplay_server=\"spice\"\n".to_string())
    );
    let once = ensure_spice_display_in("a=1\ndisplay_server=\"gtk\"").unwrap();
    assert_eq!(ensure_spice_display_in(&once), None);
}

#[test]
fn created_config_location() {
    assert_eq!(
        created_config_path("/home/u", "ubuntu-24.04"),
        "/home/u/.config/quickemu/my-vm/ubuntu-24.04.conf"
    );
}

#[test]
fn running_vm_cannot_be_edited() {
    assert_eq!(
        check_editable(&vm(VMStatus::Running { pid: 1 })),
        Err("Cannot edit a running VM. Please stop the VM first.".to_string())
    );
    assert_eq!(check_editable(&vm(VMStatus::Stopped)), Ok(()));
}

#[test]
fn edit_request_changes() {
    let v = vm(VMStatus::Stopped);
    let none = EditVMRequest { vm_id: "x".to_string(), name: Some("  ".to_string()), ram: None, cpu_cores: Some(2) };
    assert_eq!(edit_config(CONF, &v, &none), None);
    let same_name = EditVMRequest { vm_id: "x".to_string(), name: Some("ubuntu-24.04".to_string()), ram: None, cpu_cores: Some(0) };
    assert_eq!(edit_config(CONF, &v, &same_name), None);
    let all = EditVMRequest {
        vm_id: "x".to_string(),
        name: Some("work".to_string()),
        ram: Some("8G".to_string()),
        cpu_cores: Some(4),
    };
    assert_eq!(
        edit_config(CONF, &v, &all),
        Some("#!/usr/bin/quickemu --vm\n# work\nguest_os=\"linux\"\nram=\"8G\"\ncpu_cores=4".to_string())
    );
    let mut cached = vm(VMStatus::Stopped);
    apply_edit(&mut cached, &all);
    assert_eq!(cached.name, "work");
    assert_eq!(cached.config.ram, "8G");
    assert_eq!(cached.config.cpu_cores, 4);
    assert_eq!(cached.config_path, "/vms/ubuntu-24.04.conf");
}

#[test]
fn edit_dialog_values() {
    let c = vm(VMStatus::Stopped).config;
    let e = c.with_edits("2G".to_string(), 3, "");
    assert_eq!(e.ram, "2G");
    assert_eq!(e.cpu_cores, 3);
    assert_eq!(e.disk_size, None);
    let e = c.with_edits("2G".to_string(), 3, "40G");
    assert_eq!(e.disk_size, Some("40G".to_string()));
    assert_eq!(e.guest_os, "linux");
}
