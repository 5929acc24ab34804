use rustplus::events::into_event;
use rustplus::proto::{
    AppBroadcast, AppClanChanged, AppClanMessage, AppEntityChanged, AppEntityPayload,
    AppNewClanMessage, AppNewTeamMessage, AppTeamChanged, AppTeamMessage,
};
use rustplus::PendingTable;
use rustplus::RustEvent;

type Broadcast = AppBroadcast<&'static str, u8>;
type Event = RustEvent<&'static str, u8>;

fn nothing() -> Broadcast {
    AppBroadcast {
        team_changed: None,
        team_message: None,
        entity_changed: None,
        clan_changed: None,
        clan_message: None,
        camera_rays: None,
    }
}

fn team_message() -> AppTeamMessage {
    AppTeamMessage {
        steam_id: 1,
        name: "a".to_string(),
        message: "hi".to_string(),
        color: "c".to_string(),
        time: 2,
    }
}

fn payload() -> AppEntityPayload {
    AppEntityPayload { value: true, items: vec![], capacity: 0, has_protection: false, protection_expiry: 0 }
}

#[test]
fn no_part_no_event() {
    assert!(into_event(nothing()).is_none());
}

#[test]
fn team_change_event() {
    let mut b = nothing();
    b.team_changed = Some(AppTeamChanged { player_id: 5, team_info: Some("team") });
    match into_event(b) {
        Some(Event::TeamChanged { player_id, team_info }) => {
            assert_eq!(player_id, 5);
            assert_eq!(team_info, "team");
        }
        other => panic!("unexpected {:?}", other),
    }
}

#[test]
fn first_present_part_decides() {
    let mut b = nothing();
    b.team_message = Some(AppNewTeamMessage { message: Some(team_message()) });
    b.entity_changed = Some(AppEntityChanged { entity_id: 9, payload: Some(payload()) });
    b.camera_rays = Some(3);
    match into_event(b) {
        Some(Event::TeamMessage(m)) => assert_eq!(m.message, "hi"),
        other => panic!("unexpected {:?}", other),
    }

    let mut b = nothing();
    b.entity_changed = Some(AppEntityChanged { entity_id: 9, payload: Some(payload()) });
    b.clan_message = Some(AppNewClanMessage { clan_id: 1, message: None });
    match into_event(b) {
        Some(Event::EntityChanged { entity_id, payload }) => {
            assert_eq!(entity_id, 9);
            assert!(payload.value);
        }
        other => panic!("unexpected {:?}", other),
    }
}

#[test]
fn missing_content_stops_at_first_part() {
    let mut b = nothing();
    b.team_changed = Some(AppTeamChanged { player_id: 5, team_info: None });
    b.team_message = Some(AppNewTeamMessage { message: Some(team_message()) });
    assert!(into_event(b).is_none());

    let mut b = nothing();
    b.clan_changed = Some(AppClanChanged { clan_info: None });
    b.camera_rays = Some(1);
    assert!(into_event(b).is_none());
}

#[test]
fn clan_message_and_camera_events() {
    let mut b = nothing();
    b.clan_message = Some(AppNewClanMessage {
        clan_id: -4,
        message: Some(AppClanMessage { steam_id: 8, name: "n".to_string(), message: "m".to_string(), time: 3 }),
    });
    match into_event(b) {
        Some(Event::ClanMessage { clan_id, message }) => {
            assert_eq!(clan_id, -4);
            assert_eq!(message.steam_id, 8);
        }
        other => panic!("unexpected {:?}", other),
    }
    let mut b = nothing();
    b.camera_rays = Some(200);
    assert!(matches!(into_event(b), Some(Event::CameraRays(200))));
}

#[test]
fn pending_response_reaches_its_waiter_once() {
    let mut table: PendingTable<&'static str> = PendingTable::new();
    table.register(1, "first");
    table.register(2, "second");
    assert_eq!(table.take(1), Some("first"));
    assert_eq!(table.take(1), None);
    assert_eq!(table.take(3), None);
    assert_eq!(table.take(2), Some("second"));
    table.register(4, "old");
    table.register(4, "new");
    assert_eq!(table.take(4), Some("new"));
}

#[test]
fn pending_clear_drops_every_waiter() {
    let mut table: PendingTable<&'static str> = PendingTable::new();
    table.register(1, "a");
    table.register(2, "b");
    table.clear();
    assert_eq!(table.take(1), None);
    assert_eq!(table.take(2), None);
}
