use quickemu_manager::models::config::AppConfig;
use quickemu_manager::services::quickget::{OSInfo, SystemsMemo};
use quickemu_manager::web::console_view::{
    console_frame_url, status_poll_step, status_tone, viewer_endpoint, StatusTone,
};
use quickemu_manager::web::edit_form::{edit_request, initial_ram_gb};
use quickemu_manager::web::home::{poll_step, status_dot_class, without_vm, PollAction};
use quickemu_manager::web::models::{AppConfigDto, ConsoleInfo, ThemeDto, VMStatus, VM};
use quickemu_manager::web::os_picker::versions_for;
use quickemu_manager::web::settings_form::{
    default_theme_choice, theme_choice, theme_from_choice, with_theme_choice,
};
use quickemu_manager::web::vm_card::{
    card_class, card_opens_console, console_offered, console_support, console_toggle_label,
    delete_step, state_button_label, status_badge_class, DeleteAction, DeleteEvent,
};

fn info(url: &str) -> ConsoleInfo {
    ConsoleInfo {
        websocket_url: url.to_string(),
        auth_token: "tok123".to_string(),
        connection_id: "conn-1".to_string(),
    }
}

fn web_vm(name: &str, ram_mb: u32, cpu_cores: u32) -> VM {
    VM {
        id: "ubuntu-24.04".to_string(),
        name: name.to_string(),
        os: "ubuntu".to_string(),
        version: "24.04".to_string(),
        status: VMStatus::Stopped,
        cpu_cores,
        ram_mb,
        disk_size: "64G".to_string(),
        config_path: "/vms/ubuntu-24.04.conf".to_string(),
    }
}

fn os(name: &str, versions: &[&str]) -> OSInfo {
    OSInfo {
        name: name.to_string(),
        versions: versions.iter().map(|v| v.to_string()).collect(),
        editions: None,
        homepage: None,
        png_icon: None,
        svg_icon: None,
    }
}

#[test]
fn viewer_endpoint_defaults_without_a_session() {
    assert_eq!(viewer_endpoint(None), ("localhost".to_string(), 8080));
}

#[test]
fn viewer_endpoint_reads_a_url_with_a_scheme() {
    assert_eq!(viewer_endpoint(Some("ws://raider.local:6090")), ("raider.local".to_string(), 6090));
}

#[test]
fn viewer_endpoint_reads_a_url_without_a_scheme() {
    assert_eq!(viewer_endpoint(Some("raider.local:6090")), ("raider.local".to_string(), 6090));
}

#[test]
fn viewer_endpoint_falls_back_to_8080() {
    assert_eq!(viewer_endpoint(Some("ws://raider.local")), ("raider.local".to_string(), 8080));
    assert_eq!(viewer_endpoint(Some("ws://raider.local:port")), ("raider.local".to_string(), 8080));
    assert_eq!(viewer_endpoint(Some("ws://raider.local:70000")), ("raider.local".to_string(), 8080));
}

#[test]
fn viewer_endpoint_stops_at_a_second_scheme_separator() {
    assert_eq!(viewer_endpoint(Some("ws://a:5900://b:1")), ("a".to_string(), 5900));
}

#[test]
fn frame_url_with_a_scheme() {
    assert_eq!(
        console_frame_url(&info("ws://127.0.0.1:6081")),
        "/assets/spice-client/spice-console.html?host=127.0.0.1&port=6081&token=tok123"
    );
}

#[test]
fn frame_url_without_a_scheme_uses_localhost() {
    assert_eq!(
        console_frame_url(&info("raider.local:6090")),
        "/assets/spice-client/spice-console.html?host=localhost&port=6090&token=tok123"
    );
}

#[test]
fn frame_url_without_a_port_uses_6080() {
    assert_eq!(
        console_frame_url(&info("localhost")),
        "/assets/spice-client/spice-console.html?host=localhost&port=6080&token=tok123"
    );
    assert_eq!(
        console_frame_url(&info("ws://host:abc")),
        "/assets/spice-client/spice-console.html?host=host&port=6080&token=tok123"
    );
}

#[test]
fn status_tones() {
    assert_eq!(status_tone("connected"), StatusTone::Connected);
    assert_eq!(status_tone("connecting"), StatusTone::Pending);
    assert_eq!(status_tone("authenticating"), StatusTone::Pending);
    assert_eq!(status_tone("disconnected"), StatusTone::Down);
    assert_eq!(status_tone("error"), StatusTone::Down);
}

#[test]
fn status_poll_steps() {
    assert_eq!(
        status_poll_step(Ok(Some("connected".to_string()))),
        (Some("connected".to_string()), true)
    );
    assert_eq!(status_poll_step(Ok(None)), (Some("disconnected".to_string()), false));
    assert_eq!(status_poll_step(Err("offline".to_string())), (None, false));
}

#[test]
fn poll_refetches_only_on_a_new_version() {
    assert_eq!(poll_step(3, Some(4)), PollAction::Refetch(4));
    assert_eq!(poll_step(3, Some(3)), PollAction::Keep);
    assert_eq!(poll_step(3, None), PollAction::Keep);
    assert_eq!(poll_step(0, Some(0)), PollAction::Keep);
}

#[test]
fn sidebar_status_dots() {
    assert_eq!(status_dot_class(&VMStatus::Running { pid: 7 }), "bg-macos-green-500");
    assert_eq!(status_dot_class(&VMStatus::Stopped), "bg-macos-gray-400");
    assert_eq!(status_dot_class(&VMStatus::Starting), "bg-macos-yellow-500");
    assert_eq!(status_dot_class(&VMStatus::Stopping), "bg-macos-orange-500");
    assert_eq!(status_dot_class(&VMStatus::Error("x".to_string())), "bg-macos-red-500");
}

#[test]
fn only_a_running_card_opens_the_console() {
    assert!(card_opens_console(&VMStatus::Running { pid: 1 }));
    assert!(!card_opens_console(&VMStatus::Stopped));
    assert!(!card_opens_console(&VMStatus::Starting));
    assert!(!card_opens_console(&VMStatus::Error("boom".to_string())));
    assert_eq!(card_class(true), "card-macos cursor-pointer flex flex-col w-full max-w-2xl");
    assert_eq!(card_class(false), "card-macos flex flex-col w-full max-w-2xl");
}

#[test]
fn card_badges_and_buttons() {
    assert_eq!(
        status_badge_class(&VMStatus::Running { pid: 1 }),
        "bg-green-500/30 text-green-200 border border-green-400/50"
    );
    assert_eq!(
        status_badge_class(&VMStatus::Error("e".to_string())),
        "bg-red-500/30 text-red-200 border border-red-400/50"
    );
    assert_eq!(state_button_label(true, false), "Stop");
    assert_eq!(state_button_label(true, true), "Stopping...");
    assert_eq!(state_button_label(false, false), "Start");
    assert_eq!(state_button_label(false, true), "Starting...");
    assert_eq!(console_toggle_label(true), "Hide Console");
    assert_eq!(console_toggle_label(false), "Show Console");
    assert!(console_offered(true, true));
    assert!(!console_offered(true, false));
    assert!(!console_offered(false, true));
    assert!(console_support(Ok(true)));
    assert!(!console_support(Ok(false)));
    assert!(!console_support(Err("no server".to_string())));
}

#[test]
fn deletion_needs_confirmation_and_success() {
    let (confirming, action) = delete_step(false, DeleteEvent::Request);
    assert!(confirming);
    assert_eq!(action, DeleteAction::Nothing);
    assert_eq!(delete_step(true, DeleteEvent::Cancel), (false, DeleteAction::Nothing));
    assert_eq!(delete_step(false, DeleteEvent::Confirm), (false, DeleteAction::Nothing));
    assert_eq!(delete_step(true, DeleteEvent::Confirm), (false, DeleteAction::CallServer));
    assert_eq!(delete_step(false, DeleteEvent::ServerReplied(false)), (false, DeleteAction::Nothing));
    assert_eq!(delete_step(false, DeleteEvent::ServerReplied(true)), (false, DeleteAction::RemoveCard));
}

#[test]
fn edit_form_starts_from_the_vm() {
    assert_eq!(initial_ram_gb(8192), 8);
    assert_eq!(initial_ram_gb(1536), 1);
    assert_eq!(initial_ram_gb(512), 1);
    assert_eq!(initial_ram_gb(0), 1);
}

#[test]
fn edit_form_refuses_a_blank_name() {
    let vm = web_vm("ubuntu", 8192, 4);
    assert_eq!(edit_request(&vm, "   ", 8, 4).err(), Some("VM name cannot be empty"));
    assert_eq!(edit_request(&vm, "", 0, 0).err(), Some("VM name cannot be empty"));
}

#[test]
fn edit_form_refuses_zero_cores_then_zero_ram() {
    let vm = web_vm("ubuntu", 8192, 4);
    assert_eq!(edit_request(&vm, "ubuntu", 0, 0).err(), Some("CPU cores must be at least 1"));
    assert_eq!(edit_request(&vm, "ubuntu", 0, 2).err(), Some("RAM must be at least 1GB"));
}

#[test]
fn edit_form_sends_only_what_changed() {
    let vm = web_vm("ubuntu", 8192, 4);
    let r = edit_request(&vm, "  ubuntu  ", 8, 4).unwrap();
    assert_eq!(r.vm_id, "ubuntu-24.04");
    assert_eq!(r.name, None);
    assert_eq!(r.ram, None);
    assert_eq!(r.cpu_cores, None);
    let r = edit_request(&vm, " work ", 16, 2).unwrap();
    assert_eq!(r.name, Some("work".to_string()));
    assert_eq!(r.ram, Some("16G".to_string()));
    assert_eq!(r.cpu_cores, Some(2));
}

#[test]
fn edit_form_takes_negative_numbers_as_typed() {
    let vm = web_vm("ubuntu", 8192, 4);
    let r = edit_request(&vm, "ubuntu", -2, -1).unwrap();
    assert_eq!(r.ram, Some("-2G".to_string()));
    assert_eq!(r.cpu_cores, Some(u32::MAX));
}

#[test]
fn theme_choices() {
    assert_eq!(theme_choice(ThemeDto::Light), "light");
    assert_eq!(theme_choice(ThemeDto::Dark), "dark");
    assert_eq!(theme_choice(ThemeDto::System), "auto");
    assert_eq!(theme_from_choice("light"), ThemeDto::Light);
    assert_eq!(theme_from_choice("dark"), ThemeDto::Dark);
    assert_eq!(theme_from_choice("auto"), ThemeDto::System);
    assert_eq!(theme_from_choice("Dark"), ThemeDto::System);
    assert_eq!(default_theme_choice(), "dark");
}

#[test]
fn theme_choice_round_trip() {
    for t in [ThemeDto::Light, ThemeDto::Dark, ThemeDto::System] {
        assert_eq!(theme_from_choice(theme_choice(t)), t);
    }
}

#[test]
fn saving_the_form_changes_only_the_theme() {
    let dto = AppConfigDto {
        vm_directories: vec!["/vms".to_string()],
        auto_download_tools: false,
        theme: ThemeDto::Dark,
    };
    let saved = with_theme_choice(dto, "light");
    assert_eq!(saved.vm_directories, vec!["/vms".to_string()]);
    assert!(!saved.auto_download_tools);
    assert_eq!(saved.theme, ThemeDto::Light);
}

#[test]
fn versions_of_the_picked_system() {
    let list = vec![
        ("ubuntu".to_string(), vec!["22.04".to_string(), "24.04".to_string()]),
        ("fedora".to_string(), vec!["40".to_string()]),
        ("ubuntu".to_string(), vec!["20.04".to_string()]),
    ];
    assert_eq!(versions_for(&list, "ubuntu"), vec!["22.04".to_string(), "24.04".to_string()]);
    assert_eq!(versions_for(&list, "fedora"), vec!["40".to_string()]);
    assert!(versions_for(&list, "arch").is_empty());
}

#[test]
fn systems_memo_keeps_the_first_list_found() {
    let mut memo = SystemsMemo::new();
    assert!(memo.systems().is_none());
    let failed = memo.settle(Err("quickget failed".to_string()));
    assert_eq!(failed.err(), Some("quickget failed".to_string()));
    assert!(memo.systems().is_none());
    let found = memo.settle(Ok(vec![os("ubuntu", &["24.04"])])).unwrap();
    assert_eq!(found.len(), 1);
    assert_eq!(found[0].name, "ubuntu");
    let again = memo.settle(Ok(vec![os("fedora", &["40"])])).unwrap();
    assert_eq!(again.len(), 1);
    assert_eq!(again[0].name, "ubuntu");
    let kept = memo.systems().unwrap();
    assert_eq!(kept[0].versions, vec!["24.04".to_string()]);
}

#[test]
fn config_location_is_under_its_own_directory() {
    if let Ok((dir, file)) = AppConfig::config_location() {
        assert!(dir.ends_with("quickemu-manager"));
        assert_eq!(file, format!("{}/config.toml", dir));
    }
}

#[test]
fn deleting_a_vm_keeps_the_others_in_order() {
    let mut a = web_vm("a", 1024, 1);
    a.id = "a".to_string();
    let mut b = web_vm("b", 1024, 1);
    b.id = "b".to_string();
    let mut c = web_vm("c", 1024, 1);
    c.id = "c".to_string();
    let left = without_vm(vec![a.clone(), b.clone(), c.clone(), b.clone()], "b");
    assert_eq!(left, vec![a.clone(), c.clone()]);
    let same = without_vm(vec![a.clone(), c.clone()], "z");
    assert_eq!(same, vec![a, c]);
    assert!(without_vm(Vec::new(), "a").is_empty());
}
