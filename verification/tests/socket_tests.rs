use rustplus::proto::{
    AppClanChat, AppClanInfo, AppClanMessage, AppEntityInfo, AppError, AppFlag, AppInfo,
    AppResponse, AppTeamChat, AppTeamMessage, ClanInfo,
};
use rustplus::socket::{judge_response, Command, ResponseVerdict, RATE_LIMIT_RETRY_SECS};
use rustplus::{Error, RustSocket, RustSocketBuilder};

fn empty_response() -> AppResponse {
    AppResponse {
        seq: 1,
        error: None,
        info: None,
        team_chat: None,
        entity_info: None,
        flag: None,
        clan_info: None,
        clan_chat: None,
    }
}

fn missing_field<T: std::fmt::Debug>(r: Result<T, Error>) -> &'static str {
    match r {
        Err(Error::MissingResponseField(f)) => f,
        other => panic!("expected a missing field, got {:?}", other),
    }
}

fn missing_setting<T: std::fmt::Debug>(r: Result<T, Error>) -> &'static str {
    match r {
        Err(Error::BuilderMissingField(f)) => f,
        other => panic!("expected a missing setting, got {:?}", other),
    }
}

#[test]
fn build_with_all_settings() {
    let socket = RustSocket::builder()
        .ip("10.0.0.1".to_string())
        .port(28082)
        .player_id(76561199000000000)
        .player_token(123456)
        .build()
        .unwrap();
    let r = socket.request(Command::GetInfo);
    assert_eq!(r.seq, 1);
    assert_eq!(r.player_id, 76561199000000000);
    assert_eq!(r.player_token, 123456);
    assert_eq!(socket.url(), "ws://10.0.0.1:28082");
}

#[test]
fn build_names_first_missing_setting() {
    assert_eq!(missing_setting(RustSocketBuilder::new().build()), "ip");
    assert_eq!(
        missing_setting(RustSocketBuilder::new().player_token(1).player_id(2).port(3).build()),
        "ip"
    );
    assert_eq!(
        missing_setting(RustSocketBuilder::new().ip("a".to_string()).player_id(2).build()),
        "port"
    );
    assert_eq!(
        missing_setting(RustSocketBuilder::new().ip("a".to_string()).port(1).player_token(4).build()),
        "player_id"
    );
    assert_eq!(
        missing_setting(RustSocketBuilder::new().ip("a".to_string()).port(1).player_id(2).build()),
        "player_token"
    );
}

#[test]
fn setters_in_any_order_and_last_wins() {
    let socket = RustSocketBuilder::new()
        .player_token(-5)
        .port(1)
        .ip("first".to_string())
        .player_id(9)
        .ip("second".to_string())
        .port(65535)
        .build()
        .unwrap();
    assert_eq!(socket.url(), "ws://second:65535");
    let r = socket.request(Command::GetTime);
    assert_eq!(r.player_token, -5);
    assert_eq!(r.player_id, 9);
}

#[test]
fn new_socket_url_and_first_seq() {
    let socket = RustSocket::new("185.218.137.36".to_string(), 28082, 1, 2);
    assert_eq!(socket.url(), "ws://185.218.137.36:28082");
    assert_eq!(RustSocket::new("h".to_string(), 0, 1, 2).url(), "ws://h:0");
    assert_eq!(RustSocket::new("h".to_string(), 7, 1, 2).url(), "ws://h:7");
    assert_eq!(RustSocket::new("h".to_string(), 10, 1, 2).url(), "ws://h:10");
    assert_eq!(socket.request(Command::GetMap).seq, 1);
}

#[test]
fn advance_seq_counts_up() {
    let mut socket = RustSocket::new("h".to_string(), 1, 1, 2);
    assert_eq!(socket.advance_seq(), 1);
    assert_eq!(socket.advance_seq(), 2);
    assert_eq!(socket.request(Command::GetInfo).seq, 3);
}

#[test]
fn command_costs() {
    assert_eq!(Command::GetInfo.cost(), 1);
    assert_eq!(Command::GetTime.cost(), 1);
    assert_eq!(Command::GetEntityInfo { entity_id: 3 }.cost(), 1);
    assert_eq!(Command::SetSubscription { entity_id: 3, value: true }.cost(), 1);
    assert_eq!(Command::PromoteToLeader { steam_id: 3 }.cost(), 1);
    assert_eq!(Command::SendTeamMessage { message: "hi".to_string() }.cost(), 2);
    assert_eq!(Command::SendClanMessage { message: "hi".to_string() }.cost(), 2);
    assert_eq!(Command::SetClanMotd { message: "hi".to_string() }.cost(), 2);
    assert_eq!(Command::GetMap.cost(), 5);
}

#[test]
fn requests_carry_one_command() {
    let socket = RustSocket::new("h".to_string(), 1, 11, 22);
    let r = socket.request(Command::SetEntityValue { entity_id: 42, value: true });
    assert_eq!(r.entity_id, 42);
    assert_eq!(r.set_entity_value.map(|v| v.value), Some(true));
    assert!(r.get_info.is_none() && r.set_subscription.is_none() && r.get_entity_info.is_none());

    let r = socket.request(Command::SendTeamMessage { message: "Hello from Rust!".to_string() });
    assert_eq!(r.entity_id, 0);
    assert_eq!(r.send_team_message.unwrap().message, "Hello from Rust!");
    assert!(r.send_clan_message.is_none() && r.set_clan_motd.is_none());

    let r = socket.request(Command::SetClanMotd { message: "motd".to_string() });
    assert_eq!(r.set_clan_motd.unwrap().message, "motd");
    assert!(r.send_team_message.is_none());

    let r = socket.request(Command::PromoteToLeader { steam_id: 765 });
    assert_eq!(r.promote_to_leader.map(|p| p.steam_id), Some(765));

    let r = socket.request(Command::SetSubscription { entity_id: 8, value: false });
    assert_eq!(r.entity_id, 8);
    assert_eq!(r.set_subscription.map(|f| f.value), Some(false));

    let r = socket.request(Command::CheckSubscription { entity_id: 9 });
    assert!(r.check_subscription.is_some());
    let r = socket.request(Command::GetMapMarkers);
    assert!(r.get_map_markers.is_some() && r.get_map.is_none());
    let r = socket.request(Command::GetClanChat);
    assert!(r.get_clan_chat.is_some() && r.get_clan_info.is_none());
    let r = socket.request(Command::GetTeamInfo);
    assert!(r.get_team_info.is_some() && r.get_team_chat.is_none());
}

#[test]
fn judge_accepts_retries_and_fails() {
    assert!(matches!(judge_response(None), ResponseVerdict::Accept));
    assert!(matches!(
        judge_response(Some(AppError { error: "rate_limit".to_string() })),
        ResponseVerdict::RetryAfterRateLimit
    ));
    match judge_response(Some(AppError { error: "not_found".to_string() })) {
        ResponseVerdict::Fail(Error::ServerError(m)) => assert_eq!(m, "not_found"),
        other => panic!("unexpected verdict {:?}", other),
    }
    match judge_response(Some(AppError { error: "rate_limited".to_string() })) {
        ResponseVerdict::Fail(Error::ServerError(m)) => assert_eq!(m, "rate_limited"),
        other => panic!("unexpected verdict {:?}", other),
    }
    assert_eq!(RATE_LIMIT_RETRY_SECS, 2);
}

#[test]
fn responses_missing_their_field() {
    assert_eq!(missing_field(RustSocket::info_from_response(empty_response())), "info");
    assert_eq!(missing_field(RustSocket::team_chat_from_response(empty_response())), "team_chat");
    assert_eq!(missing_field(RustSocket::clan_info_from_response(empty_response())), "clan_info");
    let mut r = empty_response();
    r.clan_info = Some(AppClanInfo { clan_info: None });
    assert_eq!(missing_field(RustSocket::clan_info_from_response(r)), "clan_info.clan_info");
    assert_eq!(missing_field(RustSocket::clan_chat_from_response(empty_response())), "clan_chat");
    assert_eq!(missing_field(RustSocket::entity_info_from_response(empty_response())), "entity_info");
    assert_eq!(missing_field(RustSocket::subscription_from_response(empty_response())), "flag");
}

#[test]
fn responses_with_their_field() {
    let mut r = empty_response();
    r.info = Some(AppInfo {
        name: "Server".to_string(),
        header_image: "h".to_string(),
        url: "u".to_string(),
        map: "Procedural Map".to_string(),
        map_size: 4500,
        wipe_time: 1,
        players: 12,
        max_players: 200,
        queued_players: 3,
        seed: 1234,
        logo_image: "l".to_string(),
    });
    let info = RustSocket::info_from_response(r).unwrap();
    assert_eq!(info.name, "Server");
    assert_eq!(info.players, 12);
    assert_eq!(info.max_players, 200);
    assert_eq!(info.map_size, 4500);

    let mut r = empty_response();
    r.flag = Some(AppFlag { value: true });
    assert!(RustSocket::subscription_from_response(r).unwrap());

    let mut r = empty_response();
    r.team_chat = Some(AppTeamChat {
        messages: vec![AppTeamMessage {
            steam_id: 1,
            name: "a".to_string(),
            message: "m".to_string(),
            color: "#fff".to_string(),
            time: 5,
        }],
    });
    let chat = RustSocket::team_chat_from_response(r).unwrap();
    assert_eq!(chat.messages.len(), 1);
    assert_eq!(chat.messages[0].color, "#fff");

    let mut r = empty_response();
    r.clan_chat = Some(AppClanChat {
        messages: vec![AppClanMessage { steam_id: 2, name: "b".to_string(), message: "x".to_string(), time: -1 }],
    });
    let chat = RustSocket::clan_chat_from_response(r).unwrap();
    assert_eq!(chat.messages[0].time, -1);

    let mut r = empty_response();
    r.entity_info = Some(AppEntityInfo { type_code: 1, payload: None });
    let e = RustSocket::entity_info_from_response(r).unwrap();
    assert_eq!(e.entity_type, rustplus::structs::entity::RustEntityType::Switch);
    assert!(e.payload.is_none());

    let mut r = empty_response();
    r.clan_info = Some(AppClanInfo {
        clan_info: Some(ClanInfo {
            clan_id: 77,
            name: "c".to_string(),
            created: 1,
            creator: 2,
            motd: "m".to_string(),
            motd_timestamp: 3,
            motd_author: 4,
            logo: vec![1, 2, 3],
            color: 5,
            roles: vec![],
            members: vec![],
            invites: vec![],
            max_member_count: 6,
        }),
    });
    let c = RustSocket::clan_info_from_response(r).unwrap();
    assert_eq!(c.clan_id, 77);
    assert_eq!(c.logo, vec![1, 2, 3]);
}

#[test]
fn each_attempt_gets_its_own_seq() {
    let mut socket = RustSocket::new("h".to_string(), 1, 11, 22);
    let (first, seq1) = socket.next_attempt(Command::GetTime);
    assert_eq!((first.seq, seq1), (1, 1));
    assert!(first.get_time.is_some());
    let (retry, seq2) = socket.next_attempt(Command::GetTime);
    assert_eq!((retry.seq, seq2), (2, 2));
    assert_eq!(retry.player_id, 11);
    assert_eq!(retry.player_token, 22);
    assert_eq!(socket.current_seq(), 3);
}

#[test]
fn part_from_response_present_or_named() {
    assert_eq!(RustSocket::part_from_response(Some(5u8), "time").unwrap(), 5);
    assert_eq!(missing_field(RustSocket::part_from_response(None::<u8>, "map_markers")), "map_markers");
}
