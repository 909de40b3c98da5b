use discobot_supervisor::env::{build_env, port_value};
use discobot_supervisor::state::{ServerState, DEV_PORT};
use discobot_supervisor::window::{toggle_decision, WindowAction};

#[test]
fn shutdown_twice_is_a_noop() {
    let mut s: ServerState<u32> = ServerState::new(4000, "s".to_string());
    s.attach_process(7);
    assert_eq!(s.shutdown(), Some(7));
    assert_eq!(s.shutdown(), None);
    assert_eq!(s.get_server_port(), 4000);
    assert_eq!(s.get_server_secret(), "s");
}

#[test]
fn end_to_end_spawn_failure_keeps_queries() {
    let secret = "S3CR3T00000000000000000000000000".to_string();
    assert_eq!(secret.len(), 32);
    let mut s: ServerState<u64> = ServerState::new(3001, secret.clone());
    assert_eq!(s.get_server_port(), 3001);
    assert_eq!(s.get_server_secret(), secret);
    // The spawn fails: no child handle is ever attached, queries still
    // answer, and shutdown is a safe no-op.
    assert_eq!(s.shutdown(), None);
    assert_eq!(s.get_server_port(), 3001);
    assert_eq!(s.get_server_secret(), secret);
    assert_eq!(DEV_PORT, 3001);
}

#[test]
fn toggle_hides_only_visible_focused_window() {
    assert_eq!(toggle_decision(true, true), WindowAction::Hide);
    assert_eq!(toggle_decision(true, false), WindowAction::Show);
    assert_eq!(toggle_decision(false, false), WindowAction::Show);
    assert_eq!(toggle_decision(false, true), WindowAction::Show);
}

#[test]
fn child_environment_entries() {
    let secret = "abc".to_string();
    let env = build_env(3001, 3333, &secret);
    assert_eq!(env.len(), 6);
    assert_eq!(env[0], ("PORT".to_string(), "3001".to_string()));
    assert_eq!(env[1], ("SSH_PORT".to_string(), "3333".to_string()));
    assert_eq!(
        env[2],
        (
            "CORS_ORIGINS".to_string(),
            "http://tauri.localhost,tauri://localhost".to_string()
        )
    );
    assert_eq!(env[3], ("DISCOBOT_SECRET".to_string(), "abc".to_string()));
    assert_eq!(env[4], ("TAURI".to_string(), "true".to_string()));
    assert_eq!(env[5], ("SUGGESTIONS_ENABLED".to_string(), "true".to_string()));
}

#[test]
fn port_values_render_in_decimal() {
    assert_eq!(port_value(0), "0");
    assert_eq!(port_value(80), "80");
    assert_eq!(port_value(65535), "65535");
}
