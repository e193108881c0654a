use project_rec::avatar::AvatarProfile;
use project_rec::host::{host_room_info, HostError};
use project_rec::room::{registry_for, registry_or_empty, room_listing_line, RoomInfo, RoomRegistry};
use project_rec::transport::{SkyTrain, TrainType};

fn lounge(port: u16, public: bool) -> RoomInfo {
    RoomInfo {
        id: "room-1".to_string(),
        name: "Lounge".to_string(),
        host: "127.0.0.1".to_string(),
        port,
        public,
    }
}

#[test]
fn new_train_waits_at_origin() {
    let t = SkyTrain::new("Lounge".to_string(), "Arcade".to_string(), TrainType::Public);
    assert_eq!(t.origin, "Lounge");
    assert_eq!(t.destination, "Arcade");
    assert_eq!(t.train_type, TrainType::Public);
    assert!(!t.in_transit);
}

#[test]
fn board_then_arrive_round_trip() {
    let mut t = SkyTrain::new("A".to_string(), "B".to_string(), TrainType::Private);
    t.board();
    assert!(t.in_transit);
    assert_eq!(t.origin, "A");
    assert_eq!(t.destination, "B");
    t.arrive();
    assert!(!t.in_transit);
    assert_eq!(t.origin, "A");
    assert_eq!(t.destination, "B");
    assert_eq!(t.train_type, TrainType::Private);
}

#[test]
fn arrive_without_boarding_keeps_train_at_rest() {
    let mut t = SkyTrain::new("A".to_string(), "B".to_string(), TrainType::Public);
    t.arrive();
    assert!(!t.in_transit);
    t.board();
    t.board();
    assert!(t.in_transit);
}

#[test]
fn base_avatar_has_nothing_worn() {
    let p = AvatarProfile::base("Player".to_string());
    assert_eq!(p.name, "Player");
    assert!(p.costume.is_none());
    assert!(p.cosmetics.is_empty());
}

#[test]
fn address_joins_host_and_port() {
    assert_eq!(lounge(4000, true).address(), "127.0.0.1:4000");
    assert_eq!(lounge(0, true).address(), "127.0.0.1:0");
    assert_eq!(lounge(65535, true).address(), "127.0.0.1:65535");
    assert_eq!(lounge(10, true).address(), "127.0.0.1:10");
    assert_eq!(lounge(7, true).address(), "127.0.0.1:7");
}

#[test]
fn listing_line_names_room_address_and_visibility() {
    assert_eq!(room_listing_line(&lounge(4000, true)), "- Lounge at 127.0.0.1:4000  public=true");
    assert_eq!(room_listing_line(&lounge(4001, false)), "- Lounge at 127.0.0.1:4001  public=false");
}

#[test]
fn default_registry_is_empty() {
    let r = RoomRegistry::default();
    assert!(r.rooms.is_empty());
}

#[test]
fn registry_for_holds_exactly_the_room() {
    let r = registry_for(lounge(4000, true));
    assert_eq!(r.rooms.len(), 1);
    assert_eq!(r.rooms[0].name, "Lounge");
    assert_eq!(r.rooms[0].port, 4000);
}

#[test]
fn missing_registry_reads_as_empty() {
    assert!(registry_or_empty(None).rooms.is_empty());
    let kept = registry_or_empty(Some(registry_for(lounge(5000, false))));
    assert_eq!(kept.rooms.len(), 1);
    assert_eq!(kept.rooms[0].port, 5000);
}

#[test]
fn hosting_requires_pcvr() {
    let r = host_room_info("Lounge".to_string(), Some(4100), true, false, 12);
    assert!(matches!(r, Err(HostError::PcvrRequired)));
    assert_eq!(
        HostError::PcvrRequired.message(),
        "Room creation is allowed only when PCVR mode is enabled."
    );
}

#[test]
fn hosting_defaults_to_port_4000() {
    let r = host_room_info("Lounge".to_string(), None, false, true, 1700000000123).unwrap();
    assert_eq!(r.port, 4000);
    assert_eq!(r.id, "room-1700000000123");
    assert_eq!(r.name, "Lounge");
    assert_eq!(r.host, "127.0.0.1");
    assert!(!r.public);
}

#[test]
fn hosting_uses_chosen_port_and_millis() {
    let r = host_room_info("Den".to_string(), Some(4321), true, true, 0).unwrap();
    assert_eq!(r.port, 4321);
    assert_eq!(r.id, "room-0");
    assert!(r.public);
    assert_eq!(r.address(), "127.0.0.1:4321");
    let big = host_room_info("Den".to_string(), None, true, true, u128::MAX).unwrap();
    assert_eq!(big.id, format!("room-{}", u128::MAX));
}
