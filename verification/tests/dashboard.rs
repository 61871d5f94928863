use glide_kvm::dashboard::{select_run_mode, Dashboard, FrameEvent, RunMode};
use glide_kvm::protocol::{heartbeat_event, InputEvent, DATAGRAM_CAPACITY, INPUT_PORT};

#[test]
fn dashboard_opens_idle_with_its_defaults() {
    let d = Dashboard::new();
    assert_eq!(d.machine_name, "Kali-Linux");
    assert_eq!(d.target_ip, "100.119.208.55");
    assert!(!d.connected);
    assert!(d.clipboard_sync);
    assert!(d.file_transfer_enabled);
    assert_eq!(d.status_line(), "Status: Idle ⚪");
}

#[test]
fn connect_returns_the_input_address() {
    let mut d = Dashboard::new();
    assert_eq!(d.connect(), "100.119.208.55:24800");
    assert!(d.connected);
    assert_eq!(d.status_line(), "Status: Connected 🟢");
    assert_eq!(d.target_ip, "100.119.208.55");
}

#[test]
fn connect_trims_the_typed_address() {
    let mut d = Dashboard::new();
    d.target_ip = "  10.0.0.7 \t".to_string();
    assert_eq!(d.connect(), "10.0.0.7:24800");
    d.target_ip = "   ".to_string();
    assert_eq!(d.connect(), ":24800");
}

#[test]
fn connect_then_disconnect_restores_the_dashboard() {
    let before = Dashboard::new();
    let mut d = before.clone();
    d.connect();
    d.disconnect();
    assert_eq!(d, before);
}

#[test]
fn run_mode_selection() {
    assert_eq!(select_run_mode(true, true), RunMode::Diagnose);
    assert_eq!(select_run_mode(true, false), RunMode::Diagnose);
    assert_eq!(select_run_mode(false, true), RunMode::Dashboard);
    assert_eq!(select_run_mode(false, false), RunMode::Headless);
}

#[test]
fn heartbeat_and_ports() {
    assert_eq!(heartbeat_event(), InputEvent::MouseMove { x: 0, y: 0 });
    assert_eq!(INPUT_PORT, 24800);
    assert_eq!(DATAGRAM_CAPACITY, 4096);
}

#[test]
fn frames_switch_the_connection_only_through_their_buttons() {
    let before = Dashboard::new();
    let mut d = before.clone();
    assert_eq!(d.handle_frame(FrameEvent::Nothing), None);
    assert_eq!(d, before);
    assert_eq!(d.handle_frame(FrameEvent::DisconnectClicked), None);
    assert_eq!(d, before);
    assert_eq!(d.handle_frame(FrameEvent::ConnectClicked), Some("100.119.208.55:24800".to_string()));
    assert!(d.connected);
    assert_eq!(d.handle_frame(FrameEvent::ConnectClicked), None);
    assert!(d.connected);
    assert_eq!(d.handle_frame(FrameEvent::Nothing), None);
    assert!(d.connected);
    assert_eq!(d.handle_frame(FrameEvent::DisconnectClicked), None);
    assert_eq!(d, before);
}

#[test]
fn release_shortcut_disconnects() {
    let before = Dashboard::new();
    let mut d = before.clone();
    d.connect();
    assert_eq!(d.handle_frame(FrameEvent::ReleaseShortcut), None);
    assert!(!d.connected);
    assert_eq!(d, before);
    assert_eq!(d.handle_frame(FrameEvent::ReleaseShortcut), None);
    assert_eq!(d, before);
}
