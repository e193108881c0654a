use project_rec::avatar::AvatarProfile;
use project_rec::protocol::{ClientMessage, ServerMessage};
use project_rec::room::{registry_for, RoomInfo};
use project_rec::roster::Roster;
use project_rec::server::{room_list_message, welcome_line, Session, SessionAction};
use project_rec::transport::TrainType;

fn lounge() -> RoomInfo {
    RoomInfo {
        id: "room-7".to_string(),
        name: "Lounge".to_string(),
        host: "127.0.0.1".to_string(),
        port: 4000,
        public: true,
    }
}

#[test]
fn fresh_session_is_a_guest() {
    let s = Session::start(lounge());
    assert_eq!(s.client_name, "");
    assert_eq!(s.avatar.name, "Guest");
    assert_eq!(s.room.name, "Lounge");
}

#[test]
fn welcome_names_the_room() {
    assert_eq!(welcome_line(&lounge()), "Welcome to room Lounge");
}

#[test]
fn unreadable_line_gets_error_reply() {
    let mut s = Session::start(lounge());
    let acts = s.handle(None);
    assert_eq!(acts.len(), 1);
    match &acts[0] {
        SessionAction::SendLine(l) => assert_eq!(l, "{\"Error\":\"Invalid command format\"}"),
        other => panic!("unexpected {:?}", other),
    }
    assert_eq!(s.client_name, "");
}

#[test]
fn join_registers_and_welcomes() {
    let mut s = Session::start(lounge());
    let acts = s.handle(Some(ClientMessage::JoinRequest {
        name: "Ann".to_string(),
        avatar: AvatarProfile::base("Ann".to_string()),
    }));
    assert_eq!(s.client_name, "Ann");
    assert_eq!(s.avatar.name, "Ann");
    assert_eq!(acts.len(), 2);
    match &acts[0] {
        SessionAction::Register(a) => assert_eq!(a.name, "Ann"),
        other => panic!("unexpected {:?}", other),
    }
    match &acts[1] {
        SessionAction::Send(ServerMessage::JoinAccepted { welcome, current_room }) => {
            assert_eq!(welcome, "Joined room Lounge as Ann");
            assert_eq!(current_room.id, "room-7");
            assert_eq!(current_room.port, 4000);
        }
        other => panic!("unexpected {:?}", other),
    }
}

#[test]
fn invite_after_join_comes_from_joined_name() {
    let mut s = Session::start(lounge());
    s.handle(Some(ClientMessage::JoinRequest {
        name: "Ann".to_string(),
        avatar: AvatarProfile::base("Ann".to_string()),
    }));
    let acts = s.handle(Some(ClientMessage::InviteFriend { friend: "Bo".to_string() }));
    assert_eq!(acts.len(), 2);
    match (&acts[0], &acts[1]) {
        (
            SessionAction::Announce(ServerMessage::Invite { from: f1, friend: g1 }),
            SessionAction::Send(ServerMessage::Invite { from: f2, friend: g2 }),
        ) => {
            assert_eq!(f1, "Ann");
            assert_eq!(g1, "Bo");
            assert_eq!(f2, "Ann");
            assert_eq!(g2, "Bo");
        }
        other => panic!("unexpected {:?}", other),
    }
}

#[test]
fn invite_before_join_comes_from_nobody() {
    let mut s = Session::start(lounge());
    let acts = s.handle(Some(ClientMessage::InviteFriend { friend: "Bo".to_string() }));
    match &acts[1] {
        SessionAction::Send(ServerMessage::Invite { from, .. }) => assert_eq!(from, ""),
        other => panic!("unexpected {:?}", other),
    }
}

#[test]
fn train_call_reports_departure_then_arrival() {
    let mut s = Session::start(lounge());
    let acts = s.handle(Some(ClientMessage::CallTrain {
        destination: "Arcade".to_string(),
        train_type: TrainType::Private,
    }));
    assert_eq!(acts.len(), 3);
    match &acts[0] {
        SessionAction::Send(ServerMessage::TrainStatus { train }) => {
            assert_eq!(train.origin, "Lounge");
            assert_eq!(train.destination, "Arcade");
            assert_eq!(train.train_type, TrainType::Private);
            assert!(train.in_transit);
        }
        other => panic!("unexpected {:?}", other),
    }
    assert!(matches!(acts[1], SessionAction::Wait(2)));
    match &acts[2] {
        SessionAction::Send(ServerMessage::TrainStatus { train }) => {
            assert_eq!(train.origin, "Lounge");
            assert_eq!(train.destination, "Arcade");
            assert!(!train.in_transit);
        }
        other => panic!("unexpected {:?}", other),
    }
}

#[test]
fn list_rooms_asks_for_registry() {
    let mut s = Session::start(lounge());
    let acts = s.handle(Some(ClientMessage::ListRooms));
    assert_eq!(acts.len(), 1);
    assert!(matches!(acts[0], SessionAction::SendRoomList));
    match room_list_message(None) {
        ServerMessage::RoomList(rooms) => assert!(rooms.is_empty()),
        other => panic!("unexpected {:?}", other),
    }
    match room_list_message(Some(registry_for(lounge()))) {
        ServerMessage::RoomList(rooms) => {
            assert_eq!(rooms.len(), 1);
            assert_eq!(rooms[0].name, "Lounge");
        }
        other => panic!("unexpected {:?}", other),
    }
}

#[test]
fn quit_says_goodbye_and_closes() {
    let mut s = Session::start(lounge());
    let acts = s.handle(Some(ClientMessage::Quit));
    assert_eq!(acts.len(), 2);
    match &acts[0] {
        SessionAction::SendLine(l) => assert_eq!(l, "{\"Info\":\"Goodbye\"}"),
        other => panic!("unexpected {:?}", other),
    }
    assert!(matches!(acts[1], SessionAction::Close));
}

#[test]
fn blank_lines_are_passed_over() {
    let mut s = Session::start(lounge());
    assert!(s.handle_line("", None).is_empty());
    assert!(s.handle_line("  \t\r\n", None).is_empty());
    assert_eq!(s.client_name, "");
    let acts = s.handle_line("not json\n", None);
    assert_eq!(acts.len(), 1);
    assert!(matches!(&acts[0], SessionAction::SendLine(_)));
    let acts = s.handle_line("{\"Quit\"}\n", Some(ClientMessage::Quit));
    assert_eq!(acts.len(), 2);
    assert!(matches!(acts[1], SessionAction::Close));
}

#[test]
fn ending_takes_the_player_off() {
    let s = Session::start(lounge());
    let acts = s.end();
    assert_eq!(acts.len(), 1);
    assert!(matches!(acts[0], SessionAction::Unregister));
}

#[test]
fn roster_keeps_other_players() {
    let mut r = Roster::new();
    assert!(!r.contains(1));
    r.register(1, AvatarProfile::base("Ann".to_string()));
    r.register(2, AvatarProfile::base("Bo".to_string()));
    assert!(r.contains(1) && r.contains(2));
    r.unregister(1);
    assert!(!r.contains(1));
    assert!(r.contains(2));
    r.unregister(7);
    assert!(r.contains(2));
}
