use std::io::Write;

use quickemu_manager::services::release_archive::release_binaries;
use quickemu_manager::web::create_form::{
    can_create, can_go_next, creation_poll_step, create_request, CreationPoll,
};
use quickemu_manager::web::models::VMStatus;
use quickemu_manager::web::vm_card::{detail_badge_class, state_step, StateAction, StateEvent};
use quickemu_manager::web::vnc_view::{
    after_connect, connection_dot_class, connection_label, vnc_canvas_id, vnc_ws_url,
    VncConnectionState,
};

fn strings(v: &[&str]) -> Vec<String> {
    v.iter().map(|s| s.to_string()).collect()
}

fn zip_of(members: &[(&str, &[u8])]) -> Vec<u8> {
    let mut w = zip::ZipWriter::new(std::io::Cursor::new(Vec::new()));
    for (name, data) in members {
        w.start_file(*name, zip::write::SimpleFileOptions::default()).unwrap();
        w.write_all(data).unwrap();
    }
    w.finish().unwrap().into_inner()
}

#[test]
fn next_needs_system_version_and_edition_when_offered() {
    let none: Vec<String> = Vec::new();
    let two = strings(&["KDE", "GNOME"]);
    assert!(can_go_next("ubuntu", "24.04", &none, ""));
    assert!(!can_go_next("", "24.04", &none, ""));
    assert!(!can_go_next("ubuntu", "", &none, ""));
    assert!(!can_go_next("fedora", "40", &two, ""));
    assert!(can_go_next("fedora", "40", &two, "KDE"));
    assert!(can_go_next("fedora", "40", &strings(&["Workstation"]), ""));
}

#[test]
fn create_needs_positive_sizes_and_no_creation_under_way() {
    assert!(can_create(false, 2, 4, 20));
    assert!(!can_create(true, 2, 4, 20));
    assert!(!can_create(false, 0, 4, 20));
    assert!(!can_create(false, 2, 0, 20));
    assert!(!can_create(false, 2, 4, 0));
}

#[test]
fn create_request_from_the_form() {
    let r = create_request(
        "ubuntu".to_string(),
        "24.04".to_string(),
        String::new(),
        String::new(),
        4,
        20,
        2,
    );
    assert_eq!(r.os, "ubuntu");
    assert_eq!(r.version, "24.04");
    assert_eq!(r.edition, None);
    assert_eq!(r.name, None);
    assert_eq!(r.ram, Some("4G".to_string()));
    assert_eq!(r.disk_size, Some("20G".to_string()));
    assert_eq!(r.cpu_cores, Some(2));
    let r = create_request(
        "fedora".to_string(),
        "40".to_string(),
        "KDE".to_string(),
        "work".to_string(),
        16,
        100,
        8,
    );
    assert_eq!(r.edition, Some("KDE".to_string()));
    assert_eq!(r.name, Some("work".to_string()));
    assert_eq!(r.ram, Some("16G".to_string()));
    assert_eq!(r.disk_size, Some("100G".to_string()));
    assert_eq!(r.cpu_cores, Some(8));
}

#[test]
fn poll_shows_the_log_and_goes_on() {
    let console = strings(&["Initializing VM creation...", "Calling server function..."]);
    let (shown, outcome) =
        creation_poll_step(console, "vm-1", Ok(strings(&["Starting", "Downloading"])));
    assert_eq!(shown, strings(&["Starting", "Downloading"]));
    assert_eq!(outcome, CreationPoll::Continue);
}

#[test]
fn poll_ends_on_a_check_mark_or_a_cross() {
    let (_, ok) = creation_poll_step(Vec::new(), "vm-1", Ok(strings(&["a", "✓ VM created"])));
    assert_eq!(ok, CreationPoll::Done(true));
    let (_, bad) = creation_poll_step(Vec::new(), "vm-1", Ok(strings(&["a", "✗ failed"])));
    assert_eq!(bad, CreationPoll::Done(false));
}

#[test]
fn poll_without_a_log_notes_it_while_short() {
    let (shown, outcome) = creation_poll_step(
        strings(&["Initializing VM creation..."]),
        "vm-1",
        Ok(strings(&["Creation process not found"])),
    );
    assert_eq!(
        shown,
        strings(&["Initializing VM creation...", "Polled 1 log lines", "No logs found for ID: vm-1"])
    );
    assert_eq!(outcome, CreationPoll::Continue);
    let long = strings(&["1", "2", "3", "4", "5"]);
    let (shown, _) = creation_poll_step(long, "vm-1", Ok(Vec::new()));
    assert_eq!(shown, strings(&["1", "2", "3", "4", "5", "Polled 0 log lines"]));
}

#[test]
fn poll_error_stops_following() {
    let (shown, outcome) = creation_poll_step(strings(&["x"]), "vm-1", Err("timeout".to_string()));
    assert_eq!(shown, strings(&["x", "✗ Error polling logs: timeout"]));
    assert_eq!(outcome, CreationPoll::Failed);
}

#[test]
fn detail_badges() {
    assert_eq!(detail_badge_class(&VMStatus::Running { pid: 1 }), "bg-macos-green-500 text-white");
    assert_eq!(detail_badge_class(&VMStatus::Stopped), "bg-macos-gray-300 text-macos-gray-700");
    assert_eq!(detail_badge_class(&VMStatus::Starting), "bg-macos-yellow-500 text-white");
    assert_eq!(detail_badge_class(&VMStatus::Stopping), "bg-macos-orange-500 text-white");
    assert_eq!(detail_badge_class(&VMStatus::Error("e".to_string())), "bg-macos-red-500 text-white");
}

#[test]
fn start_and_stop_sequence() {
    assert_eq!(state_step(false, false, StateEvent::Pressed), (true, StateAction::CallStart));
    assert_eq!(state_step(true, false, StateEvent::Pressed), (true, StateAction::CallStop));
    assert_eq!(state_step(true, true, StateEvent::Pressed), (true, StateAction::Nothing));
    assert_eq!(
        state_step(true, true, StateEvent::CallEnded),
        (false, StateAction::NotifyStatusChange)
    );
}

#[test]
fn vnc_viewer_addresses() {
    assert_eq!(vnc_ws_url("http:", "localhost", 5900), "ws://localhost:5900/");
    assert_eq!(vnc_ws_url("https:", "example.org", 443), "wss://example.org:443/");
    assert_eq!(vnc_canvas_id(5901), "vnc-canvas-5901");
}

#[test]
fn vnc_viewer_states() {
    assert_eq!(connection_label(VncConnectionState::Connected), "Connected");
    assert_eq!(connection_label(VncConnectionState::Connecting), "Connecting");
    assert_eq!(connection_label(VncConnectionState::Failed), "Failed");
    assert_eq!(connection_label(VncConnectionState::Disconnected), "Disconnected");
    assert_eq!(
        connection_dot_class(VncConnectionState::Connecting),
        "w-2 h-2 bg-yellow-500 rounded-full animate-pulse"
    );
    assert_eq!(after_connect(Ok(())), (VncConnectionState::Connected, None));
    assert_eq!(
        after_connect(Err("refused".to_string())),
        (VncConnectionState::Failed, Some("Failed to connect: refused".to_string()))
    );
}

#[test]
fn release_archive_gives_its_binaries() {
    let bytes = zip_of(&[
        ("quickemu-4.9.7/README.md", b"readme"),
        ("quickemu-4.9.7/quickemu", b"#!/bin/bash\necho emu\n"),
        ("quickemu-4.9.7/docs/quickget.1", b"man"),
        ("quickemu-4.9.7/quickget", b"#!/bin/bash\necho get\n"),
    ]);
    let bins = release_binaries(&bytes).unwrap();
    assert_eq!(
        bins,
        vec![
            ("quickemu".to_string(), b"#!/bin/bash\necho emu\n".to_vec()),
            ("quickget".to_string(), b"#!/bin/bash\necho get\n".to_vec()),
        ]
    );
}

#[test]
fn release_archive_refuses_other_bytes() {
    assert!(release_binaries(&b"not a zip archive".to_vec()).is_err());
}
