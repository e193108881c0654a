use project_rec::gui::{added_cube_message, host_refusal_status, form_room_info, join_status, press, room_list_lines, AppMode, Button};
use project_rec::host::HostError;
use project_rec::room::{registry_for, RoomInfo, RoomRegistry};
use project_rec::text::parse_u16;

#[test]
fn menu_buttons_switch_screens() {
    let (m, s) = press(AppMode::Menu, Button::StartGame);
    assert_eq!(m, AppMode::Game);
    assert_eq!(s.unwrap(), "Game started. WASD move, SPACE jump, mouse look.");
    let (m, s) = press(AppMode::Menu, Button::EditorMode);
    assert_eq!(m, AppMode::Editor);
    assert_eq!(s.unwrap(), "Editor started. Place cubes into the world.");
    let (m, s) = press(AppMode::Game, Button::EditorMode);
    assert_eq!(m, AppMode::Editor);
    assert_eq!(s.unwrap(), "Editor started.");
    let (m, s) = press(AppMode::Game, Button::ReturnToMenu);
    assert_eq!(m, AppMode::Menu);
    assert!(s.is_none());
    let (m, s) = press(AppMode::Editor, Button::BackToGame);
    assert_eq!(m, AppMode::Game);
    assert_eq!(s.unwrap(), "Returned to game.");
    let (m, s) = press(AppMode::Editor, Button::BackToMenu);
    assert_eq!(m, AppMode::Menu);
    assert!(s.is_none());
}

#[test]
fn buttons_absent_from_a_screen_change_nothing() {
    let (m, s) = press(AppMode::Menu, Button::BackToGame);
    assert_eq!(m, AppMode::Menu);
    assert!(s.is_none());
    let (m, s) = press(AppMode::Editor, Button::StartGame);
    assert_eq!(m, AppMode::Editor);
    assert!(s.is_none());
}

#[test]
fn host_form_needs_pcvr() {
    assert!(matches!(
        form_room_info("Lounge".to_string(), "4000", true, false),
        Err(HostError::PcvrRequired)
    ));
    assert_eq!(
        HostError::PcvrRequired.message(),
        "Room creation is allowed only when PCVR mode is enabled."
    );
    let r = form_room_info("Lounge".to_string(), "4100", false, true).unwrap();
    assert_eq!(r.port, 4100);
    assert_eq!(r.id, "room-4100");
    assert_eq!(r.host, "127.0.0.1");
    assert!(!r.public);
    let r = form_room_info("Den".to_string(), "+80", true, true).unwrap();
    assert_eq!(r.port, 80);
    assert_eq!(r.id, "room-80");
}

#[test]
fn hosting_and_joining_buttons_announce_the_attempt() {
    let (m, s) = press(AppMode::Menu, Button::StartHosting);
    assert_eq!(m, AppMode::Menu);
    assert_eq!(s.unwrap(), "Starting host...");
    let (m, s) = press(AppMode::Menu, Button::JoinRoom);
    assert_eq!(m, AppMode::Menu);
    assert_eq!(s.unwrap(), "Connecting to room...");
    let (m, s) = press(AppMode::Game, Button::StartHosting);
    assert_eq!(m, AppMode::Game);
    assert!(s.is_none());
}

#[test]
fn host_form_falls_back_to_port_4000() {
    for text in ["", "abc", "70000", " 4100", "-1", "+", "41 00", "4100 "] {
        let r = form_room_info("Den".to_string(), text, true, true).unwrap();
        assert_eq!(r.port, 4000, "port text {:?}", text);
        assert_eq!(r.id, "room-4000");
    }
}

#[test]
fn port_text_reads_like_std() {
    for text in ["0", "1", "80", "+80", "65535", "65536", "007", "", "+", "-0", "1e3", "99999999999", "٣"] {
        assert_eq!(parse_u16(text), text.parse::<u16>().ok(), "text {:?}", text);
    }
}

#[test]
fn room_list_lines_cover_all_cases() {
    assert_eq!(room_list_lines(None), vec!["No local room registry found."]);
    assert_eq!(
        room_list_lines(Some(RoomRegistry { rooms: Vec::new() })),
        vec!["No connected rooms found."]
    );
    let room = RoomInfo {
        id: "room-1".to_string(),
        name: "Lounge".to_string(),
        host: "127.0.0.1".to_string(),
        port: 4000,
        public: false,
    };
    assert_eq!(
        room_list_lines(Some(registry_for(room))),
        vec!["Lounge at 127.0.0.1:4000  public=false"]
    );
}

#[test]
fn join_status_lines() {
    assert_eq!(join_status(Ok("  Welcome to room Lounge\n".to_string())), "Join success: Welcome to room Lounge");
    assert_eq!(join_status(Err("refused".to_string())), "Join failed: refused");
}

#[test]
fn added_cube_note() {
    assert_eq!(added_cube_message(0, 0, 5), "Added cube at 0 0 5.");
    assert_eq!(added_cube_message(-3, 12, i32::MIN), format!("Added cube at -3 12 {}.", i32::MIN));
    assert_eq!(added_cube_message(i32::MAX, -1, 0), format!("Added cube at {} -1 0.", i32::MAX));
}

#[test]
fn refused_host_attempt_status() {
    assert_eq!(host_refusal_status(false, false).unwrap(), "Host requires PC or PCVR mode.");
    assert_eq!(
        host_refusal_status(true, false).unwrap(),
        "Room creation is allowed only when PCVR mode is enabled."
    );
    assert!(host_refusal_status(false, true).is_none());
    assert!(host_refusal_status(true, true).is_none());
}
