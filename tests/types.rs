use neko_agent::types::{KeyboardModifiers, MemberProfile, ScreenSize, SessionState, Settings};

#[test]
fn screen_size_new_keeps_fields() {
    let s = ScreenSize::new(2560, 1440, 144);
    assert_eq!(s.width, 2560);
    assert_eq!(s.height, 1440);
    assert_eq!(s.rate, 144);
}

#[test]
fn screen_size_text() {
    assert_eq!(ScreenSize::new(1920, 1080, 60).to_string(), "1920x1080@60");
    assert_eq!(ScreenSize::new(0, 7, 0).to_string(), "0x7@0");
    assert_eq!(ScreenSize::new(u32::MAX, 10, 65535).to_string(), "4294967295x10@65535");
}

#[test]
fn modifiers_default_is_all_false() {
    let m = KeyboardModifiers::default();
    assert!(!m.shift && !m.control && !m.alt && !m.super_key);
}

#[test]
fn session_state_default() {
    let s = SessionState::default();
    assert!(!s.is_connected);
    assert!(!s.is_watching);
    assert!(s.connected_since.is_none());
    assert!(s.watching_since.is_none());
}

#[test]
fn member_profile_default() {
    let p = MemberProfile::default();
    assert_eq!(p.name, "Agent");
    assert!(p.is_admin && p.can_login && p.can_connect);
    assert!(p.can_watch && p.can_host && p.can_access_clipboard);
}

#[test]
fn settings_default() {
    let s = Settings::default();
    assert!(!s.private_mode);
    assert!(s.locked_logins);
    assert!(!s.locked_controls);
    assert!(!s.control_protection);
    assert!(s.implicit_hosting);
    assert!(!s.inactive_cursors);
    assert!(s.merciful_reconnect);
    assert_eq!(s.heartbeat_interval, 10);
}
