use quickemu_manager::card_state::{card_view, click_action, status_transition, CardClick, MonitorAction};
use quickemu_manager::models::vm::VMStatus;
use quickemu_manager::services::quickget::OSInfo;
use quickemu_manager::ui_style::{detect_platform_style, Platform};
use quickemu_manager::vm_naming::{is_auto_generated_name, name_after_selection, suggested_vm_name};
use quickemu_manager::web::os_picker::{filter_os_list, selectable_editions};

fn ubuntu() -> OSInfo {
    OSInfo {
        name: "ubuntu".to_string(),
        versions: vec!["22.04".to_string(), "24.04".to_string()],
        editions: None,
        homepage: None,
        png_icon: None,
        svg_icon: None,
    }
}

#[test]
fn suggested_names() {
    assert_eq!(suggested_vm_name("ubuntu", "24.04", None), "ubuntu-24.04");
    assert_eq!(suggested_vm_name("windows", "11", Some("Pro")), "windows-11-pro");
}

#[test]
fn generated_names_are_recognised() {
    let os = ubuntu();
    assert!(is_auto_generated_name("ubuntu-22.04", Some(&os), false));
    assert!(!is_auto_generated_name("ubuntu-22.04", Some(&os), true));
    assert!(is_auto_generated_name("ubuntu-22.04-desktop", Some(&os), true));
    assert!(!is_auto_generated_name("ubuntu-20.04", Some(&os), false));
    assert!(!is_auto_generated_name("fedora-22.04", Some(&os), false));
    assert!(!is_auto_generated_name("my server", Some(&os), false));
    assert!(!is_auto_generated_name("ubuntu-22.04", None, false));
}

#[test]
fn name_follows_selection_unless_edited() {
    let os = ubuntu();
    assert_eq!(
        name_after_selection("", Some(&os), Some("24.04"), None, false),
        Some("ubuntu-24.04".to_string())
    );
    assert_eq!(
        name_after_selection("ubuntu-22.04", Some(&os), Some("24.04"), None, false),
        Some("ubuntu-24.04".to_string())
    );
    assert_eq!(name_after_selection("my vm", Some(&os), Some("24.04"), None, false), None);
    assert_eq!(name_after_selection("", None, Some("24.04"), None, false), None);
    assert_eq!(name_after_selection("", Some(&os), None, None, false), None);
}

#[test]
fn os_search() {
    let list = vec![
        ("Ubuntu".to_string(), vec!["24.04".to_string()]),
        ("fedora".to_string(), vec!["40".to_string()]),
        ("kubuntu".to_string(), vec!["24.04".to_string()]),
    ];
    let found = filter_os_list("UBU", list.clone());
    assert_eq!(found.iter().map(|c| c.0.as_str()).collect::<Vec<_>>(), vec!["Ubuntu", "kubuntu"]);
    assert_eq!(filter_os_list("", list.clone()), list);
    assert!(filter_os_list("zzz", list).is_empty());
}

#[test]
fn editions_offered() {
    assert_eq!(
        selectable_editions(vec!["Default".to_string(), "Pro".to_string(), "Home".to_string()]),
        vec!["Pro".to_string(), "Home".to_string()]
    );
    assert_eq!(selectable_editions(vec!["default".to_string()]), vec!["default".to_string()]);
    assert!(selectable_editions(vec![]).is_empty());
}

#[test]
fn platform_styles() {
    assert_eq!(detect_platform_style(Platform::MacOs, None), "cupertino");
    assert_eq!(detect_platform_style(Platform::Windows, Some("GNOME")), "fluent");
    assert_eq!(detect_platform_style(Platform::Linux, Some("GNOME")), "material");
    assert_eq!(detect_platform_style(Platform::Linux, Some("X-Cinnamon")), "material");
    assert_eq!(detect_platform_style(Platform::Linux, Some("KDE")), "fluent");
    assert_eq!(detect_platform_style(Platform::Linux, Some("COSMIC")), "cosmic");
    assert_eq!(detect_platform_style(Platform::Linux, Some("sway")), "native");
    assert_eq!(detect_platform_style(Platform::Linux, None), "native");
    assert_eq!(detect_platform_style(Platform::Other, Some("kde")), "native");
}

#[test]
fn card_views() {
    let stopped = card_view(&VMStatus::Stopped);
    assert_eq!(stopped.status_text, "Stopped");
    assert_eq!(stopped.status_button, Some(("Start", true)));
    assert!(stopped.metrics_cleared);
    let running = card_view(&VMStatus::Running { pid: 3 });
    assert_eq!(running.css_class, "success");
    assert_eq!(running.stop_button, Some(("Stop VM", true)));
    assert_eq!(running.console_button_visible, Some(true));
    assert!(!running.metrics_cleared);
    let stopping = card_view(&VMStatus::Stopping);
    assert_eq!(stopping.stop_button, Some(("Stopping...", false)));
    let error = card_view(&VMStatus::Error("e".to_string()));
    assert_eq!(error.icon_name, "dialog-error-symbolic");
    assert_eq!(error.status_button, Some(("Retry", true)));
}

#[test]
fn clicks_and_transitions() {
    assert_eq!(click_action(&VMStatus::Stopped), CardClick::StartAndOpenConsole);
    assert_eq!(click_action(&VMStatus::Running { pid: 1 }), CardClick::OpenConsole);
    assert_eq!(click_action(&VMStatus::Starting), CardClick::Nothing);
    assert_eq!(
        status_transition(&VMStatus::Stopped, &VMStatus::Running { pid: 9 }),
        (true, MonitorAction::Register(9))
    );
    assert_eq!(
        status_transition(&VMStatus::Running { pid: 9 }, &VMStatus::Stopped),
        (true, MonitorAction::Unregister)
    );
    assert_eq!(
        status_transition(&VMStatus::Running { pid: 9 }, &VMStatus::Running { pid: 10 }),
        (false, MonitorAction::Keep)
    );
    assert_eq!(
        status_transition(&VMStatus::Stopping, &VMStatus::Stopped),
        (true, MonitorAction::Keep)
    );
}
