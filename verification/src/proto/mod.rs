//! The protocol messages that the library reads and writes, as plain values.
//! Messages that carry floating-point coordinates stay with the transport
//! layer; where one of them travels inside a message modelled here, it is a
//! type parameter.

use vstd::prelude::*;

pub mod app_entity_payload;
pub mod clan_info;

verus! {

/// A request or response part without content.
#[derive(Debug, Clone, Copy, PartialEq, Eq, Structural)]
pub struct AppEmpty {}

/// A single boolean flag.
#[derive(Debug, Clone, Copy, PartialEq, Eq, Structural)]
pub struct AppFlag {
    pub value: bool,
}

/// The new value of a smart device.
#[derive(Debug, Clone, Copy, PartialEq, Eq, Structural)]
pub struct AppSetEntityValue {
    pub value: bool,
}

/// The team member that becomes leader.
#[derive(Debug, Clone, Copy, PartialEq, Eq, Structural)]
pub struct AppPromoteToLeader {
    pub steam_id: u64,
}

/// A chat message or message of the day to send.
#[derive(Debug, Clone)]
pub struct AppSendMessage {
    pub message: String,
}

/// A request: who asks, its sequence number, and exactly one command part.
#[derive(Debug, Clone)]
pub struct AppRequest {
    pub seq: u32,
    pub player_id: u64,
    pub player_token: i32,
    pub entity_id: u32,
    pub get_info: Option<AppEmpty>,
    pub get_time: Option<AppEmpty>,
    pub get_map: Option<AppEmpty>,
    pub get_team_info: Option<AppEmpty>,
    pub get_team_chat: Option<AppEmpty>,
    pub send_team_message: Option<AppSendMessage>,
    pub get_entity_info: Option<AppEmpty>,
    pub set_entity_value: Option<AppSetEntityValue>,
    pub check_subscription: Option<AppEmpty>,
    pub set_subscription: Option<AppFlag>,
    pub get_map_markers: Option<AppEmpty>,
    pub promote_to_leader: Option<AppPromoteToLeader>,
    pub get_clan_info: Option<AppEmpty>,
    pub set_clan_motd: Option<AppSendMessage>,
    pub get_clan_chat: Option<AppEmpty>,
    pub send_clan_message: Option<AppSendMessage>,
}

/// The request with every field zero or absent.
pub open spec fn empty_request() -> AppRequest {
    AppRequest {
        seq: 0,
        player_id: 0,
        player_token: 0,
        entity_id: 0,
        get_info: None,
        get_time: None,
        get_map: None,
        get_team_info: None,
        get_team_chat: None,
        send_team_message: None,
        get_entity_info: None,
        set_entity_value: None,
        check_subscription: None,
        set_subscription: None,
        get_map_markers: None,
        promote_to_leader: None,
        get_clan_info: None,
        set_clan_motd: None,
        get_clan_chat: None,
        send_clan_message: None,
    }
}

impl Default for AppRequest {
    fn default() -> (r: Self)
        ensures
            r == empty_request(),
    {
        AppRequest {
            seq: 0,
            player_id: 0,
            player_token: 0,
            entity_id: 0,
            get_info: None,
            get_time: None,
            get_map: None,
            get_team_info: None,
            get_team_chat: None,
            send_team_message: None,
            get_entity_info: None,
            set_entity_value: None,
            check_subscription: None,
            set_subscription: None,
            get_map_markers: None,
            promote_to_leader: None,
            get_clan_info: None,
            set_clan_motd: None,
            get_clan_chat: None,
            send_clan_message: None,
        }
    }
}

/// The server's description of itself.
#[derive(Debug, Clone)]
pub struct AppInfo {
    pub name: String,
    pub header_image: String,
    pub url: String,
    pub map: String,
    pub map_size: u32,
    pub wipe_time: u32,
    pub players: u32,
    pub max_players: u32,
    pub queued_players: u32,
    pub seed: u32,
    pub logo_image: String,
}

/// A clan, with its roles, members and open invitations.
#[derive(Debug, Clone)]
pub struct ClanInfo {
    pub clan_id: i64,
    pub name: String,
    pub created: i64,
    pub creator: u64,
    pub motd: String,
    pub motd_timestamp: i64,
    pub motd_author: u64,
    pub logo: Vec<u8>,
    pub color: i32,
    pub roles: Vec<clan_info::Role>,
    pub members: Vec<clan_info::Member>,
    pub invites: Vec<clan_info::Invite>,
    pub max_member_count: i32,
}

/// The answer to a clan-info request; the player may be in no clan.
#[derive(Debug, Clone)]
pub struct AppClanInfo {
    pub clan_info: Option<ClanInfo>,
}

/// One message of the clan chat.
#[derive(Debug, Clone)]
pub struct AppClanMessage {
    pub steam_id: u64,
    pub name: String,
    pub message: String,
    pub time: i64,
}

/// The clan chat, oldest message first.
#[derive(Debug, Clone)]
pub struct AppClanChat {
    pub messages: Vec<AppClanMessage>,
}

/// The kinds of smart device.
#[derive(Debug, Clone, Copy, PartialEq, Eq, Structural)]
pub enum AppEntityType {
    UnknownType,
    Switch,
    Alarm,
    StorageMonitor,
}

/// The device kind that a wire code stands for, if it stands for one.
pub open spec fn entity_type_of_code(code: i32) -> Option<AppEntityType> {
    if code == 0 {
        Some(AppEntityType::UnknownType)
    } else if code == 1 {
        Some(AppEntityType::Switch)
    } else if code == 2 {
        Some(AppEntityType::Alarm)
    } else if code == 3 {
        Some(AppEntityType::StorageMonitor)
    } else {
        None
    }
}

impl AppEntityType {
    /// Decodes a wire code: 0 unknown, 1 switch, 2 alarm, 3 storage
    /// monitor; any other code is no device kind.
    pub fn from_code(code: i32) -> (t: Option<AppEntityType>)
        ensures
            t == entity_type_of_code(code),
    {
        if code == 0 {
            Some(AppEntityType::UnknownType)
        } else if code == 1 {
            Some(AppEntityType::Switch)
        } else if code == 2 {
            Some(AppEntityType::Alarm)
        } else if code == 3 {
            Some(AppEntityType::StorageMonitor)
        } else {
            None
        }
    }
}

/// The state of a smart device.
#[derive(Debug, Clone)]
pub struct AppEntityPayload {
    pub value: bool,
    pub items: Vec<app_entity_payload::Item>,
    pub capacity: i32,
    pub has_protection: bool,
    pub protection_expiry: u32,
}

/// A smart device: its kind as a wire code, and its state if known.
#[derive(Debug, Clone)]
pub struct AppEntityInfo {
    pub type_code: i32,
    pub payload: Option<AppEntityPayload>,
}

/// One message of the team chat.
#[derive(Debug, Clone)]
pub struct AppTeamMessage {
    pub steam_id: u64,
    pub name: String,
    pub message: String,
    pub color: String,
    pub time: u32,
}

/// The team chat, oldest message first.
#[derive(Debug, Clone)]
pub struct AppTeamChat {
    pub messages: Vec<AppTeamMessage>,
}

/// An error reported by the server.
#[derive(Debug, Clone)]
pub struct AppError {
    pub error: String,
}

/// A response, with the parts that the library interprets.
#[derive(Debug, Clone)]
pub struct AppResponse {
    pub seq: u32,
    pub error: Option<AppError>,
    pub info: Option<AppInfo>,
    pub team_chat: Option<AppTeamChat>,
    pub entity_info: Option<AppEntityInfo>,
    pub flag: Option<AppFlag>,
    pub clan_info: Option<AppClanInfo>,
    pub clan_chat: Option<AppClanChat>,
}

/// A team change, caused by the given player; the team's description
/// (which carries map positions) is a type parameter.
#[derive(Debug, Clone)]
pub struct AppTeamChanged<TI> {
    pub player_id: u64,
    pub team_info: Option<TI>,
}

/// A new team chat message.
#[derive(Debug, Clone)]
pub struct AppNewTeamMessage {
    pub message: Option<AppTeamMessage>,
}

/// A change of a smart device's state.
#[derive(Debug, Clone)]
pub struct AppEntityChanged {
    pub entity_id: u32,
    pub payload: Option<AppEntityPayload>,
}

/// A change of the clan.
#[derive(Debug, Clone)]
pub struct AppClanChanged {
    pub clan_info: Option<ClanInfo>,
}

/// A new clan chat message.
#[derive(Debug, Clone)]
pub struct AppNewClanMessage {
    pub clan_id: i64,
    pub message: Option<AppClanMessage>,
}

/// A message that the server pushes without a request. The team description
/// `TI` and the camera rays `CR` carry floating-point data and are type
/// parameters.
#[derive(Debug, Clone)]
pub struct AppBroadcast<TI, CR> {
    pub team_changed: Option<AppTeamChanged<TI>>,
    pub team_message: Option<AppNewTeamMessage>,
    pub entity_changed: Option<AppEntityChanged>,
    pub clan_changed: Option<AppClanChanged>,
    pub clan_message: Option<AppNewClanMessage>,
    pub camera_rays: Option<CR>,
}

/// The wire codes of the device kinds: 0 unknown, 1 switch, 2 alarm,
/// 3 storage monitor; no other code stands for a kind.
pub proof fn lemma_entity_type_codes(code: i32)
    ensures
        code == 0 <==> entity_type_of_code(code) == Some(AppEntityType::UnknownType),
        code == 1 <==> entity_type_of_code(code) == Some(AppEntityType::Switch),
        code == 2 <==> entity_type_of_code(code) == Some(AppEntityType::Alarm),
        code == 3 <==> entity_type_of_code(code) == Some(AppEntityType::StorageMonitor),
        (code < 0 || code > 3) <==> entity_type_of_code(code) is None,
{
}

} // verus!
