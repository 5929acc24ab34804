use rustplus::proto::app_entity_payload::Item;
use rustplus::proto::clan_info::{Invite, Member, Role};
use rustplus::proto::{
    AppClanChat, AppClanMessage, AppEntityInfo, AppEntityPayload, AppEntityType, AppInfo,
    AppTeamChat, AppTeamMessage, ClanInfo,
};
use rustplus::{
    RustClanChat, RustClanInfo, RustEntityInfo, RustEntityItem, RustEntityPayload, RustEntityType,
    RustInfo, RustInvite, RustMember, RustRole, RustTeamChat, RustTeamMessage,
};

fn role(id: i32, name: &str) -> Role {
    Role {
        role_id: id,
        rank: id * 10,
        name: name.to_string(),
        can_set_motd: true,
        can_set_logo: false,
        can_invite: true,
        can_kick: false,
        can_promote: true,
        can_demote: false,
        can_set_player_notes: true,
        can_access_logs: false,
    }
}

#[test]
fn server_info_keeps_every_field() {
    let info = RustInfo::from(AppInfo {
        name: "n".to_string(),
        header_image: "hi".to_string(),
        url: "https://example.org".to_string(),
        map: "m".to_string(),
        map_size: 3000,
        wipe_time: 1700000000,
        players: 5,
        max_players: 100,
        queued_players: 2,
        seed: 99,
        logo_image: "li".to_string(),
    });
    assert_eq!(info.name, "n");
    assert_eq!(info.header_image, "hi");
    assert_eq!(info.url, "https://example.org");
    assert_eq!(info.map, "m");
    assert_eq!(info.map_size, 3000);
    assert_eq!(info.wipe_time, 1700000000);
    assert_eq!(info.players, 5);
    assert_eq!(info.max_players, 100);
    assert_eq!(info.queued_players, 2);
    assert_eq!(info.seed, 99);
    assert_eq!(info.logo_image, "li");
}

#[test]
fn role_member_invite_keep_fields() {
    let r = RustRole::from(role(3, "Officer"));
    assert_eq!((r.role_id, r.rank, r.name.as_str()), (3, 30, "Officer"));
    assert!(r.can_set_motd && !r.can_set_logo && r.can_invite && !r.can_kick);
    assert!(r.can_promote && !r.can_demote && r.can_set_player_notes && !r.can_access_logs);

    let m = RustMember::from(Member {
        steam_id: 42,
        role_id: 3,
        joined: 10,
        last_seen: 20,
        notes: "note".to_string(),
        online: true,
    });
    assert_eq!((m.steam_id, m.role_id, m.joined, m.last_seen), (42, 3, 10, 20));
    assert_eq!(m.notes, "note");
    assert!(m.online);

    let i = RustInvite::from(Invite { steam_id: 1, recruiter: 2, timestamp: -3 });
    assert_eq!(i, RustInvite { steam_id: 1, recruiter: 2, timestamp: -3 });
}

#[test]
fn clan_info_converts_lists_in_order() {
    let c = RustClanInfo::from(ClanInfo {
        clan_id: -9,
        name: "Clan".to_string(),
        created: 100,
        creator: 200,
        motd: "welcome".to_string(),
        motd_timestamp: 300,
        motd_author: 400,
        logo: vec![9, 8],
        color: -1,
        roles: vec![role(1, "a"), role(2, "b")],
        members: vec![Member {
            steam_id: 5,
            role_id: 1,
            joined: 0,
            last_seen: 0,
            notes: String::new(),
            online: false,
        }],
        invites: vec![
            Invite { steam_id: 6, recruiter: 5, timestamp: 1 },
            Invite { steam_id: 7, recruiter: 5, timestamp: 2 },
            Invite { steam_id: 8, recruiter: 5, timestamp: 3 },
        ],
        max_member_count: 8,
    });
    assert_eq!(c.clan_id, -9);
    assert_eq!(c.name, "Clan");
    assert_eq!((c.created, c.creator), (100, 200));
    assert_eq!(c.motd, "welcome");
    assert_eq!((c.motd_timestamp, c.motd_author), (300, 400));
    assert_eq!(c.logo, vec![9, 8]);
    assert_eq!(c.color, -1);
    assert_eq!(c.max_member_count, 8);
    assert_eq!(c.roles.len(), 2);
    assert_eq!(c.roles[0].name, "a");
    assert_eq!(c.roles[1].name, "b");
    assert_eq!(c.members.len(), 1);
    assert_eq!(c.members[0].steam_id, 5);
    assert_eq!(
        c.invites.iter().map(|i| i.steam_id).collect::<Vec<_>>(),
        vec![6, 7, 8]
    );
}

#[test]
fn clan_and_team_chats_keep_order() {
    let chat = RustClanChat::from(AppClanChat {
        messages: vec![
            AppClanMessage { steam_id: 1, name: "x".to_string(), message: "first".to_string(), time: 1 },
            AppClanMessage { steam_id: 2, name: "y".to_string(), message: "second".to_string(), time: 2 },
        ],
    });
    assert_eq!(chat.messages.len(), 2);
    assert_eq!(chat.messages[0].message, "first");
    assert_eq!(chat.messages[1].name, "y");

    let chat = RustTeamChat::from(AppTeamChat { messages: vec![] });
    assert!(chat.messages.is_empty());

    let m = RustTeamMessage::from(AppTeamMessage {
        steam_id: 3,
        name: "z".to_string(),
        message: "hello".to_string(),
        color: "#5af".to_string(),
        time: 77,
    });
    assert_eq!((m.steam_id, m.time), (3, 77));
    assert_eq!(m.name, "z");
    assert_eq!(m.message, "hello");
    assert_eq!(m.color, "#5af");
}

#[test]
fn entity_types_from_codes() {
    assert_eq!(RustEntityType::from(AppEntityType::UnknownType), RustEntityType::Unknown);
    assert_eq!(RustEntityType::from(AppEntityType::Switch), RustEntityType::Switch);
    assert_eq!(RustEntityType::from(AppEntityType::Alarm), RustEntityType::Alarm);
    assert_eq!(RustEntityType::from(AppEntityType::StorageMonitor), RustEntityType::StorageMonitor);
    assert_eq!(AppEntityType::from_code(3), Some(AppEntityType::StorageMonitor));
    assert_eq!(AppEntityType::from_code(4), None);
    assert_eq!(AppEntityType::from_code(-1), None);
    let kinds: Vec<RustEntityType> = [0, 1, 2, 3, 4, -7]
        .iter()
        .map(|&c| RustEntityInfo::from(AppEntityInfo { type_code: c, payload: None }).entity_type)
        .collect();
    assert_eq!(
        kinds,
        vec![
            RustEntityType::Unknown,
            RustEntityType::Switch,
            RustEntityType::Alarm,
            RustEntityType::StorageMonitor,
            RustEntityType::Unknown,
            RustEntityType::Unknown
        ]
    );
}

#[test]
fn entity_payload_keeps_items() {
    let p = RustEntityPayload::from(AppEntityPayload {
        value: true,
        items: vec![
            Item { item_id: 10, quantity: 1000, item_is_blueprint: false },
            Item { item_id: 11, quantity: 1, item_is_blueprint: true },
        ],
        capacity: 48,
        has_protection: true,
        protection_expiry: 123,
    });
    assert!(p.value);
    assert_eq!(p.capacity, 48);
    assert!(p.has_protection);
    assert_eq!(p.protection_expiry, 123);
    assert_eq!(
        p.items,
        vec![
            RustEntityItem { item_id: 10, quantity: 1000, item_is_blueprint: false },
            RustEntityItem { item_id: 11, quantity: 1, item_is_blueprint: true }
        ]
    );
    assert_eq!(
        RustEntityItem::from(Item { item_id: 1, quantity: 2, item_is_blueprint: true }),
        RustEntityItem { item_id: 1, quantity: 2, item_is_blueprint: true }
    );

    let info = RustEntityInfo::from(AppEntityInfo {
        type_code: 3,
        payload: Some(AppEntityPayload {
            value: false,
            items: vec![],
            capacity: 0,
            has_protection: false,
            protection_expiry: 0,
        }),
    });
    assert_eq!(info.entity_type, RustEntityType::StorageMonitor);
    assert!(!info.payload.unwrap().value);
}
