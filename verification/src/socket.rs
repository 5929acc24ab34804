use vstd::prelude::*;

use crate::error::Error;
use crate::proto::{
    empty_request, AppEmpty, AppError, AppFlag, AppPromoteToLeader, AppRequest, AppResponse,
    AppSendMessage, AppSetEntityValue,
};
use crate::structs::clan::{RustClanChat, RustClanInfo};
use crate::structs::entity::RustEntityInfo;
use crate::structs::server_info::{info_of, RustInfo};
use crate::structs::team::RustTeamChat;

verus! {

/// The character of a decimal digit.
pub open spec fn digit_char(d: nat) -> char {
    if d == 0 {
        '0'
    } else if d == 1 {
        '1'
    } else if d == 2 {
        '2'
    } else if d == 3 {
        '3'
    } else if d == 4 {
        '4'
    } else if d == 5 {
        '5'
    } else if d == 6 {
        '6'
    } else if d == 7 {
        '7'
    } else if d == 8 {
        '8'
    } else {
        '9'
    }
}

/// The decimal notation of `n`, most significant digit first, without
/// leading zeros.
pub open spec fn decimal(n: nat) -> Seq<char>
    decreases n,
{
    if n < 10 {
        seq![digit_char(n)]
    } else {
        decimal(n / 10).push(digit_char(n % 10))
    }
}

/// The value of a decimal digit character.
pub open spec fn digit_value(c: char) -> nat {
    if c == '1' {
        1
    } else if c == '2' {
        2
    } else if c == '3' {
        3
    } else if c == '4' {
        4
    } else if c == '5' {
        5
    } else if c == '6' {
        6
    } else if c == '7' {
        7
    } else if c == '8' {
        8
    } else if c == '9' {
        9
    } else {
        0
    }
}

/// The number that a string of decimal digits denotes.
pub open spec fn decimal_value(s: Seq<char>) -> nat
    decreases s.len(),
{
    if s.len() == 0 {
        0
    } else {
        10 * decimal_value(s.drop_last()) + digit_value(s.last())
    }
}

/// The decimal notation of a number is not empty, starts with a zero only
/// for zero itself, and reads back as the number.
pub proof fn lemma_decimal_reads_back(n: nat)
    ensures
        decimal(n).len() >= 1,
        n > 0 ==> decimal(n)[0] != '0',
        decimal_value(decimal(n)) == n,
    decreases n,
{
    if n >= 10 {
        lemma_decimal_reads_back(n / 10);
        let d = decimal(n);
        assert(d.drop_last() =~= decimal(n / 10));
        assert(d[0] == decimal(n / 10)[0]);
        assert(d.last() == digit_char(n % 10));
        assert(digit_value(digit_char(n % 10)) == n % 10);
        assert(n == 10 * (n / 10) + n % 10);
        assert(decimal_value(d) == 10 * decimal_value(d.drop_last()) + digit_value(d.last()));
    } else {
        let d = decimal(n);
        assert(d.drop_last() =~= Seq::<char>::empty());
        assert(decimal_value(Seq::<char>::empty()) == 0);
        assert(digit_value(digit_char(n)) == n);
        assert(decimal_value(d) == 10 * decimal_value(d.drop_last()) + digit_value(d.last()));
    }
}

/// The digit characters are the ASCII digits: the character for `d` has
/// code point 48 + `d`, and `digit_value` reads it back as `d`.
pub proof fn lemma_digit_chars(d: nat)
    requires
        d < 10,
    ensures
        digit_char(d) as u32 == 48 + d,
        digit_value(digit_char(d)) == d,
{
}

/// The websocket address of a server.
pub open spec fn ws_url(ip: Seq<char>, port: u16) -> Seq<char> {
    "ws://"@ + ip + ":"@ + decimal(port as nat)
}

fn digit_str(d: u16) -> (s: &'static str)
    requires
        d < 10,
    ensures
        s@ == seq![digit_char(d as nat)],
{
    if d == 0 {
        proof { reveal_strlit("0"); }
        "0"
    } else if d == 1 {
        proof { reveal_strlit("1"); }
        "1"
    } else if d == 2 {
        proof { reveal_strlit("2"); }
        "2"
    } else if d == 3 {
        proof { reveal_strlit("3"); }
        "3"
    } else if d == 4 {
        proof { reveal_strlit("4"); }
        "4"
    } else if d == 5 {
        proof { reveal_strlit("5"); }
        "5"
    } else if d == 6 {
        proof { reveal_strlit("6"); }
        "6"
    } else if d == 7 {
        proof { reveal_strlit("7"); }
        "7"
    } else if d == 8 {
        proof { reveal_strlit("8"); }
        "8"
    } else {
        proof { reveal_strlit("9"); }
        "9"
    }
}

fn append_decimal(s: &mut String, n: u16)
    ensures
        final(s)@ == old(s)@ + decimal(n as nat),
    decreases n,
{
    if n >= 10 {
        append_decimal(s, n / 10);
    }
    s.append(digit_str(n % 10));
    proof {
        if n >= 10 {
            assert(old(s)@ + decimal(n as nat) == old(s)@ + decimal((n / 10) as nat) + seq![
                digit_char((n % 10) as nat),
            ]);
        }
    }
}

/// Seconds to wait before sending a request again that the server refused
/// with `rate_limit`.
pub const RATE_LIMIT_RETRY_SECS: u64 = 2;

/// The things a client can ask the server.
#[derive(Debug, Clone)]
pub enum Command {
    GetInfo,
    GetTime,
    GetMap,
    GetTeamInfo,
    GetTeamChat,
    GetMapMarkers,
    GetClanInfo,
    GetClanChat,
    GetEntityInfo { entity_id: u32 },
    SetEntityValue { entity_id: u32, value: bool },
    CheckSubscription { entity_id: u32 },
    SetSubscription { entity_id: u32, value: bool },
    PromoteToLeader { steam_id: u64 },
    SendTeamMessage { message: String },
    SendClanMessage { message: String },
    SetClanMotd { message: String },
}

impl Command {
    /// The rate-limit tokens a command uses: 2 for sending a chat message or
    /// setting the clan's message of the day, 5 for the map, 1 otherwise.
    pub open spec fn spec_cost(&self) -> u32 {
        match self {
            Command::SendTeamMessage { .. } => 2,
            Command::SendClanMessage { .. } => 2,
            Command::SetClanMotd { .. } => 2,
            Command::GetMap => 5,
            _ => 1,
        }
    }

    /// The rate-limit tokens that this command uses; see [`Command::spec_cost`].
    pub fn cost(&self) -> (c: u32)
        ensures
            c == self.spec_cost(),
    {
        match self {
            Command::SendTeamMessage { .. } => 2,
            Command::SendClanMessage { .. } => 2,
            Command::SetClanMotd { .. } => 2,
            Command::GetMap => 5,
            _ => 1,
        }
    }
}

/// The request that carries `command` for the given player under sequence
/// number `seq`: the command's part is set, with the entity id where the
/// command names a device, and every other part is absent.
pub open spec fn request_of(seq: u32, player_id: u64, player_token: i32, command: Command) -> AppRequest {
    let base = AppRequest { seq, player_id, player_token, ..empty_request() };
    match command {
        Command::GetInfo => AppRequest { get_info: Some(AppEmpty {}), ..base },
        Command::GetTime => AppRequest { get_time: Some(AppEmpty {}), ..base },
        Command::GetMap => AppRequest { get_map: Some(AppEmpty {}), ..base },
        Command::GetTeamInfo => AppRequest { get_team_info: Some(AppEmpty {}), ..base },
        Command::GetTeamChat => AppRequest { get_team_chat: Some(AppEmpty {}), ..base },
        Command::GetMapMarkers => AppRequest { get_map_markers: Some(AppEmpty {}), ..base },
        Command::GetClanInfo => AppRequest { get_clan_info: Some(AppEmpty {}), ..base },
        Command::GetClanChat => AppRequest { get_clan_chat: Some(AppEmpty {}), ..base },
        Command::GetEntityInfo { entity_id } => AppRequest {
            entity_id,
            get_entity_info: Some(AppEmpty {}),
            ..base
        },
        Command::SetEntityValue { entity_id, value } => AppRequest {
            entity_id,
            set_entity_value: Some(AppSetEntityValue { value }),
            ..base
        },
        Command::CheckSubscription { entity_id } => AppRequest {
            entity_id,
            check_subscription: Some(AppEmpty {}),
            ..base
        },
        Command::SetSubscription { entity_id, value } => AppRequest {
            entity_id,
            set_subscription: Some(AppFlag { value }),
            ..base
        },
        Command::PromoteToLeader { steam_id } => AppRequest {
            promote_to_leader: Some(AppPromoteToLeader { steam_id }),
            ..base
        },
        Command::SendTeamMessage { message } => AppRequest {
            send_team_message: Some(AppSendMessage { message }),
            ..base
        },
        Command::SendClanMessage { message } => AppRequest {
            send_clan_message: Some(AppSendMessage { message }),
            ..base
        },
        Command::SetClanMotd { message } => AppRequest {
            set_clan_motd: Some(AppSendMessage { message }),
            ..base
        },
    }
}

/// How many command parts a request carries.
pub open spec fn command_part_count(r: AppRequest) -> nat {
    (if r.get_info is Some { 1nat } else { 0nat }) + (if r.get_time is Some { 1nat } else { 0nat })
        + (if r.get_map is Some { 1nat } else { 0nat }) + (if r.get_team_info is Some { 1nat } else { 0nat })
        + (if r.get_team_chat is Some { 1nat } else { 0nat }) + (if r.send_team_message is Some { 1nat } else { 0nat })
        + (if r.get_entity_info is Some { 1nat } else { 0nat }) + (if r.set_entity_value is Some { 1nat } else { 0nat })
        + (if r.check_subscription is Some { 1nat } else { 0nat }) + (if r.set_subscription is Some { 1nat } else { 0nat })
        + (if r.get_map_markers is Some { 1nat } else { 0nat }) + (if r.promote_to_leader is Some { 1nat } else { 0nat })
        + (if r.get_clan_info is Some { 1nat } else { 0nat }) + (if r.set_clan_motd is Some { 1nat } else { 0nat })
        + (if r.get_clan_chat is Some { 1nat } else { 0nat }) + (if r.send_clan_message is Some { 1nat } else { 0nat })
}

/// The device that a command names; 0 for a command that names none.
pub open spec fn command_entity(command: Command) -> u32 {
    match command {
        Command::GetEntityInfo { entity_id } => entity_id,
        Command::SetEntityValue { entity_id, .. } => entity_id,
        Command::CheckSubscription { entity_id } => entity_id,
        Command::SetSubscription { entity_id, .. } => entity_id,
        _ => 0,
    }
}

/// Every request carries its sequence number and the player's credentials,
/// names the command's device (or none), and holds exactly one command part.
pub proof fn lemma_request_has_one_command(
    seq: u32,
    player_id: u64,
    player_token: i32,
    command: Command,
)
    ensures
        request_of(seq, player_id, player_token, command).seq == seq,
        request_of(seq, player_id, player_token, command).player_id == player_id,
        request_of(seq, player_id, player_token, command).player_token == player_token,
        request_of(seq, player_id, player_token, command).entity_id == command_entity(command),
        command_part_count(request_of(seq, player_id, player_token, command)) == 1,
{
}

/// Each command sets the request part of its own name, carrying the
/// command's own payload, and leaves every other part absent; the entity id
/// is the device that the command names, and 0 for the others.
pub proof fn lemma_request_part_of_command(
    seq: u32,
    player_id: u64,
    player_token: i32,
    command: Command,
)
    ensures
        request_of(seq, player_id, player_token, command).get_info is Some <==> command is GetInfo,
        request_of(seq, player_id, player_token, command).get_time is Some <==> command is GetTime,
        request_of(seq, player_id, player_token, command).get_map is Some <==> command is GetMap,
        request_of(seq, player_id, player_token, command).get_team_info is Some <==> command is GetTeamInfo,
        request_of(seq, player_id, player_token, command).get_team_chat is Some <==> command is GetTeamChat,
        request_of(seq, player_id, player_token, command).get_map_markers is Some <==> command is GetMapMarkers,
        request_of(seq, player_id, player_token, command).get_clan_info is Some <==> command is GetClanInfo,
        request_of(seq, player_id, player_token, command).get_clan_chat is Some <==> command is GetClanChat,
        request_of(seq, player_id, player_token, command).get_entity_info is Some <==> command is GetEntityInfo,
        request_of(seq, player_id, player_token, command).check_subscription is Some <==> command is CheckSubscription,
        request_of(seq, player_id, player_token, command).set_entity_value is Some <==> command is SetEntityValue,
        request_of(seq, player_id, player_token, command).set_subscription is Some <==> command is SetSubscription,
        request_of(seq, player_id, player_token, command).promote_to_leader is Some <==> command is PromoteToLeader,
        request_of(seq, player_id, player_token, command).send_team_message is Some <==> command is SendTeamMessage,
        request_of(seq, player_id, player_token, command).send_clan_message is Some <==> command is SendClanMessage,
        request_of(seq, player_id, player_token, command).set_clan_motd is Some <==> command is SetClanMotd,
        command matches Command::SetEntityValue { entity_id, value } ==> request_of(seq, player_id, player_token, command).set_entity_value == Some(AppSetEntityValue { value }) && request_of(seq, player_id, player_token, command).entity_id == entity_id,
        command matches Command::SetSubscription { entity_id, value } ==> request_of(seq, player_id, player_token, command).set_subscription == Some(AppFlag { value }) && request_of(seq, player_id, player_token, command).entity_id == entity_id,
        command matches Command::GetEntityInfo { entity_id } ==> request_of(seq, player_id, player_token, command).entity_id == entity_id,
        command matches Command::CheckSubscription { entity_id } ==> request_of(seq, player_id, player_token, command).entity_id == entity_id,
        command matches Command::PromoteToLeader { steam_id } ==> request_of(seq, player_id, player_token, command).promote_to_leader == Some(AppPromoteToLeader { steam_id }),
        command matches Command::SendTeamMessage { message } ==> request_of(seq, player_id, player_token, command).send_team_message matches Some(m) && m.message == message,
        command matches Command::SendClanMessage { message } ==> request_of(seq, player_id, player_token, command).send_clan_message matches Some(m) && m.message == message,
        command matches Command::SetClanMotd { message } ==> request_of(seq, player_id, player_token, command).set_clan_motd matches Some(m) && m.message == message,
        !(command is GetEntityInfo || command is SetEntityValue || command is CheckSubscription || command is SetSubscription) ==> request_of(seq, player_id, player_token, command).entity_id == 0,
        request_of(seq, player_id, player_token, command).seq == seq,
        request_of(seq, player_id, player_token, command).player_id == player_id,
        request_of(seq, player_id, player_token, command).player_token == player_token,
{
}

/// Only the map costs 5 tokens; the two chat messages and the clan's
/// message of the day cost 2; every other command costs 1.
pub proof fn lemma_command_costs(command: Command)
    ensures
        command.spec_cost() == 5 <==> command is GetMap,
        command.spec_cost() == 2 <==> (command is SendTeamMessage || command is SendClanMessage
            || command is SetClanMotd),
        command.spec_cost() == 1 <==> !(command is GetMap || command is SendTeamMessage
            || command is SendClanMessage || command is SetClanMotd),
{
}

/// What to do with a response.
#[derive(Debug)]
pub enum ResponseVerdict {
    /// The response answers the request.
    Accept,
    /// The server refused the request for its rate; send it again after
    /// [`RATE_LIMIT_RETRY_SECS`] seconds.
    RetryAfterRateLimit,
    /// The request failed with this error.
    Fail(Error),
}

/// What to do with a response that carries `error`: accept it when there is
/// no error, send the request again when the error is `rate_limit`, and
/// fail with the server's message otherwise.
pub fn judge_response(error: Option<AppError>) -> (v: ResponseVerdict)
    ensures
        error is None ==> v is Accept,
        error matches Some(e) ==> (e.error@ == "rate_limit"@ ==> v is RetryAfterRateLimit),
        error matches Some(e) ==> (e.error@ != "rate_limit"@ ==> (v matches ResponseVerdict::Fail(
            Error::ServerError(m),
        ) && m == e.error)),
{
    match error {
        None => ResponseVerdict::Accept,
        Some(e) => {
            let rate_limit = String::from_str("rate_limit");
            proof {
                reveal_strlit("rate_limit");
            }
            if e.error == rate_limit {
                ResponseVerdict::RetryAfterRateLimit
            } else {
                ResponseVerdict::Fail(Error::ServerError(e.error))
            }
        },
    }
}

/// `r` is the error for a response that lacks the field named `name`.
pub open spec fn is_missing_field<T>(r: Result<T, Error>, name: Seq<char>) -> bool {
    r matches Err(Error::MissingResponseField(f)) && f@ == name
}

/// Collects the settings of a [`RustSocket`]; every one of them is required.
pub struct RustSocketBuilder {
    ip: Option<String>,
    port: Option<u16>,
    player_id: Option<u64>,
    player_token: Option<i32>,
}

/// The connection-independent state of a Rust+ session: where the server
/// is, who the player is, and the sequence number of the next request.
#[derive(Debug)]
pub struct RustSocket {
    seq: u32,
    ip: String,
    port: u16,
    player_id: u64,
    player_token: i32,
}

/// The settings that a builder holds; each is absent until set.
pub struct SocketSettings {
    pub ip: Option<String>,
    pub port: Option<u16>,
    pub player_id: Option<u64>,
    pub player_token: Option<i32>,
}

impl SocketSettings {
    /// No setting made.
    pub open spec fn none() -> SocketSettings {
        SocketSettings { ip: None, port: None, player_id: None, player_token: None }
    }

    pub open spec fn with_ip(self, ip: String) -> SocketSettings {
        SocketSettings { ip: Some(ip), ..self }
    }

    pub open spec fn with_port(self, port: u16) -> SocketSettings {
        SocketSettings { port: Some(port), ..self }
    }

    pub open spec fn with_player_id(self, id: u64) -> SocketSettings {
        SocketSettings { player_id: Some(id), ..self }
    }

    pub open spec fn with_player_token(self, token: i32) -> SocketSettings {
        SocketSettings { player_token: Some(token), ..self }
    }

    /// The name of the first required setting, in the order ip, port,
    /// player_id, player_token, that is not made; `None` when all are.
    pub open spec fn first_missing(self) -> Option<Seq<char>> {
        if self.ip is None {
            Some("ip"@)
        } else if self.port is None {
            Some("port"@)
        } else if self.player_id is None {
            Some("player_id"@)
        } else if self.player_token is None {
            Some("player_token"@)
        } else {
            None
        }
    }
}

/// Making all four settings, from any starting point, leaves nothing
/// missing, so that `build` succeeds with exactly those values.
pub proof fn lemma_all_settings_made(
    s: SocketSettings,
    ip: String,
    port: u16,
    id: u64,
    token: i32,
)
    ensures
        (s.with_ip(ip).with_port(port).with_player_id(id).with_player_token(token).first_missing() is None),
        s.with_ip(ip).with_port(port).with_player_id(id).with_player_token(token) == (SocketSettings {
            ip: Some(ip),
            port: Some(port),
            player_id: Some(id),
            player_token: Some(token),
        }),
{
}

/// The setters are independent: setting two different fields gives the
/// same settings in either order.
pub proof fn lemma_setters_commute(s: SocketSettings, ip: String, port: u16, id: u64, token: i32)
    ensures
        s.with_ip(ip).with_port(port) == s.with_port(port).with_ip(ip),
        s.with_ip(ip).with_player_id(id) == s.with_player_id(id).with_ip(ip),
        s.with_ip(ip).with_player_token(token) == s.with_player_token(token).with_ip(ip),
        s.with_port(port).with_player_id(id) == s.with_player_id(id).with_port(port),
        s.with_port(port).with_player_token(token) == s.with_player_token(token).with_port(port),
        s.with_player_id(id).with_player_token(token) == s.with_player_token(token).with_player_id(
            id,
        ),
{
}

/// Setting a field twice keeps the second value.
pub proof fn lemma_last_setting_wins(
    s: SocketSettings,
    ip1: String,
    ip2: String,
    port1: u16,
    port2: u16,
    id1: u64,
    id2: u64,
    token1: i32,
    token2: i32,
)
    ensures
        s.with_ip(ip1).with_ip(ip2) == s.with_ip(ip2),
        s.with_port(port1).with_port(port2) == s.with_port(port2),
        s.with_player_id(id1).with_player_id(id2) == s.with_player_id(id2),
        s.with_player_token(token1).with_player_token(token2) == s.with_player_token(token2),
{
}

/// The missing setting that `build` names is the first one absent in the
/// order ip, port, player_id, player_token, and there is one exactly when
/// some setting is absent.
pub proof fn lemma_first_missing_order(s: SocketSettings)
    ensures
        s.first_missing() is None <==> (s.ip is Some && s.port is Some && s.player_id is Some
            && s.player_token is Some),
        s.ip is None ==> s.first_missing() == Some("ip"@),
        s.ip is Some && s.port is None ==> s.first_missing() == Some("port"@),
        s.ip is Some && s.port is Some && s.player_id is None ==> s.first_missing() == Some(
            "player_id"@,
        ),
        s.ip is Some && s.port is Some && s.player_id is Some && s.player_token is None
            ==> s.first_missing() == Some("player_token"@),
{
}

impl View for RustSocketBuilder {
    type V = SocketSettings;

    closed spec fn view(&self) -> SocketSettings {
        SocketSettings {
            ip: self.ip,
            port: self.port,
            player_id: self.player_id,
            player_token: self.player_token,
        }
    }
}

impl RustSocketBuilder {
    /// A builder with no setting made.
    pub fn new() -> (b: Self)
        ensures
            b@ == SocketSettings::none(),
    {
        RustSocketBuilder { ip: None, port: None, player_id: None, player_token: None }
    }

    /// Sets the server address, leaving the other settings as they were.
    pub fn ip(self, ip: String) -> (b: Self)
        ensures
            b@ == self@.with_ip(ip),
    {
        let mut b = self;
        b.ip = Some(ip);
        b
    }

    /// Sets the server port, leaving the other settings as they were.
    pub fn port(self, port: u16) -> (b: Self)
        ensures
            b@ == self@.with_port(port),
    {
        let mut b = self;
        b.port = Some(port);
        b
    }

    /// Sets the player's Steam id, leaving the other settings as they were.
    pub fn player_id(self, id: u64) -> (b: Self)
        ensures
            b@ == self@.with_player_id(id),
    {
        let mut b = self;
        b.player_id = Some(id);
        b
    }

    /// Sets the player's pairing token, leaving the other settings as they
    /// were.
    pub fn player_token(self, token: i32) -> (b: Self)
        ensures
            b@ == self@.with_player_token(token),
    {
        let mut b = self;
        b.player_token = Some(token);
        b
    }

    /// Turns the settings into a socket whose first request gets sequence
    /// number 1, or names the first missing setting.
    pub fn build(self) -> (r: Result<RustSocket, Error>)
        ensures
            self@.first_missing() is None <==> r is Ok,
            r matches Ok(s) ==> {
                &&& self@.ip == Some(s.spec_ip())
                &&& self@.port == Some(s.spec_port())
                &&& self@.player_id == Some(s.spec_player_id())
                &&& self@.player_token == Some(s.spec_player_token())
                &&& s.spec_seq() == 1
            },
            r matches Err(e) ==> (e matches Error::BuilderMissingField(f) && Some(f@)
                == self@.first_missing()),
    {
        let ip = match self.ip {
            Some(ip) => ip,
            None => {
                let f = "ip";
                proof {
                    reveal_strlit("ip");
                }
                return Err(Error::BuilderMissingField(f));
            },
        };
        let port = match self.port {
            Some(port) => port,
            None => {
                let f = "port";
                proof {
                    reveal_strlit("port");
                }
                return Err(Error::BuilderMissingField(f));
            },
        };
        let player_id = match self.player_id {
            Some(id) => id,
            None => {
                let f = "player_id";
                proof {
                    reveal_strlit("player_id");
                }
                return Err(Error::BuilderMissingField(f));
            },
        };
        let player_token = match self.player_token {
            Some(token) => token,
            None => {
                let f = "player_token";
                proof {
                    reveal_strlit("player_token");
                }
                return Err(Error::BuilderMissingField(f));
            },
        };
        Ok(RustSocket { seq: 1, ip, port, player_id, player_token })
    }
}

impl RustSocket {
    pub closed spec fn spec_seq(&self) -> u32 {
        self.seq
    }

    pub closed spec fn spec_ip(&self) -> String {
        self.ip
    }

    pub closed spec fn spec_port(&self) -> u16 {
        self.port
    }

    pub closed spec fn spec_player_id(&self) -> u64 {
        self.player_id
    }

    pub closed spec fn spec_player_token(&self) -> i32 {
        self.player_token
    }

    /// An empty builder.
    pub fn builder() -> (b: RustSocketBuilder)
        ensures
            b@ == SocketSettings::none(),
    {
        RustSocketBuilder::new()
    }

    /// A socket with all four settings given; this never fails.
    pub fn new(ip: String, port: u16, player_id: u64, player_token: i32) -> (s: Self)
        ensures
            s.spec_ip() == ip,
            s.spec_port() == port,
            s.spec_player_id() == player_id,
            s.spec_player_token() == player_token,
            s.spec_seq() == 1,
    {
        Self::builder().ip(ip).port(port).player_id(player_id).player_token(
            player_token,
        ).build().unwrap()
    }

    /// The websocket address of the server: `ws://{ip}:{port}`.
    pub fn url(&self) -> (u: String)
        ensures
            u@ == ws_url(self.spec_ip()@, self.spec_port()),
    {
        let mut u = String::from_str("ws://");
        u.append(self.ip.as_str());
        u.append(":");
        append_decimal(&mut u, self.port);
        proof {
            reveal_strlit("ws://");
            reveal_strlit(":");
        }
        u
    }

    /// The request that carries `command` under this socket's current
    /// sequence number, for this socket's player; see [`request_of`].
    pub fn request(&self, command: Command) -> (r: AppRequest)
        ensures
            r == request_of(self.spec_seq(), self.spec_player_id(), self.spec_player_token(), command),
    {
        let mut r = AppRequest::default();
        r.seq = self.seq;
        r.player_id = self.player_id;
        r.player_token = self.player_token;
        match command {
            Command::GetInfo => r.get_info = Some(AppEmpty {}),
            Command::GetTime => r.get_time = Some(AppEmpty {}),
            Command::GetMap => r.get_map = Some(AppEmpty {}),
            Command::GetTeamInfo => r.get_team_info = Some(AppEmpty {}),
            Command::GetTeamChat => r.get_team_chat = Some(AppEmpty {}),
            Command::GetMapMarkers => r.get_map_markers = Some(AppEmpty {}),
            Command::GetClanInfo => r.get_clan_info = Some(AppEmpty {}),
            Command::GetClanChat => r.get_clan_chat = Some(AppEmpty {}),
            Command::GetEntityInfo { entity_id } => {
                r.entity_id = entity_id;
                r.get_entity_info = Some(AppEmpty {});
            },
            Command::SetEntityValue { entity_id, value } => {
                r.entity_id = entity_id;
                r.set_entity_value = Some(AppSetEntityValue { value });
            },
            Command::CheckSubscription { entity_id } => {
                r.entity_id = entity_id;
                r.check_subscription = Some(AppEmpty {});
            },
            Command::SetSubscription { entity_id, value } => {
                r.entity_id = entity_id;
                r.set_subscription = Some(AppFlag { value });
            },
            Command::PromoteToLeader { steam_id } => {
                r.promote_to_leader = Some(AppPromoteToLeader { steam_id });
            },
            Command::SendTeamMessage { message } => {
                r.send_team_message = Some(AppSendMessage { message });
            },
            Command::SendClanMessage { message } => {
                r.send_clan_message = Some(AppSendMessage { message });
            },
            Command::SetClanMotd { message } => {
                r.set_clan_motd = Some(AppSendMessage { message });
            },
        }
        r
    }

    /// The sequence number that the next request goes out under.
    pub fn current_seq(&self) -> (seq: u32)
        ensures
            seq == self.spec_seq(),
    {
        self.seq
    }

    /// Records that a request went out: returns the sequence number that the
    /// request was registered under, and moves on to the next one.
    pub fn advance_seq(&mut self) -> (seq: u32)
        requires
            old(self).spec_seq() < u32::MAX,
        ensures
            seq == old(self).spec_seq(),
            final(self).spec_seq() == old(self).spec_seq() + 1,
            final(self).spec_ip() == old(self).spec_ip(),
            final(self).spec_port() == old(self).spec_port(),
            final(self).spec_player_id() == old(self).spec_player_id(),
            final(self).spec_player_token() == old(self).spec_player_token(),
    {
        let seq = self.seq;
        self.seq = self.seq + 1;
        seq
    }

    /// One attempt at a command: the request that carries it under the
    /// current sequence number, together with that number, which is the one
    /// its response must be awaited under; the counter moves on, so that
    /// each attempt, a retry too, goes out under a number of its own.
    pub fn next_attempt(&mut self, command: Command) -> (r: (AppRequest, u32))
        requires
            old(self).spec_seq() < u32::MAX,
        ensures
            r.0 == request_of(
                old(self).spec_seq(),
                old(self).spec_player_id(),
                old(self).spec_player_token(),
                command,
            ),
            r.1 == old(self).spec_seq(),
            r.0.seq == r.1,
            final(self).spec_seq() == old(self).spec_seq() + 1,
            final(self).spec_ip() == old(self).spec_ip(),
            final(self).spec_port() == old(self).spec_port(),
            final(self).spec_player_id() == old(self).spec_player_id(),
            final(self).spec_player_token() == old(self).spec_player_token(),
    {
        let request = self.request(command);
        let seq = self.advance_seq();
        (request, seq)
    }

    /// The part of a response that a request asks for, or the error that
    /// names the part when the response lacks it.
    pub fn part_from_response<T>(part: Option<T>, name: &'static str) -> (r: Result<T, Error>)
        ensures
            match part {
                Some(p) => r == Ok::<T, Error>(p),
                None => is_missing_field(r, name@),
            },
    {
        match part {
            Some(p) => Ok(p),
            None => Err(Error::MissingResponseField(name)),
        }
    }

    /// The server's description from a response to `GetInfo`.
    pub fn info_from_response(response: AppResponse) -> (r: Result<RustInfo, Error>)
        ensures
            match response.info {
                Some(i) => r == Ok::<RustInfo, Error>(info_of(i)),
                None => is_missing_field(r, "info"@),
            },
    {
        match response.info {
            Some(i) => Ok(RustInfo::from(i)),
            None => {
                proof {
                    reveal_strlit("info");
                }
                Err(Error::MissingResponseField("info"))
            },
        }
    }

    /// The team chat from a response to `GetTeamChat`.
    pub fn team_chat_from_response(response: AppResponse) -> (r: Result<RustTeamChat, Error>)
        ensures
            match response.team_chat {
                Some(c) => r matches Ok(chat) && chat.converted_from(c),
                None => is_missing_field(r, "team_chat"@),
            },
    {
        match response.team_chat {
            Some(c) => Ok(RustTeamChat::from(c)),
            None => {
                proof {
                    reveal_strlit("team_chat");
                }
                Err(Error::MissingResponseField("team_chat"))
            },
        }
    }

    /// The clan from a response to `GetClanInfo`: the response must hold
    /// the clan-info part, and that part must hold a clan.
    pub fn clan_info_from_response(response: AppResponse) -> (r: Result<RustClanInfo, Error>)
        ensures
            match response.clan_info {
                Some(outer) => match outer.clan_info {
                    Some(c) => r matches Ok(info) && info.converted_from(c),
                    None => is_missing_field(r, "clan_info.clan_info"@),
                },
                None => is_missing_field(r, "clan_info"@),
            },
    {
        match response.clan_info {
            Some(outer) => match outer.clan_info {
                Some(c) => Ok(RustClanInfo::from(c)),
                None => {
                    proof {
                        reveal_strlit("clan_info.clan_info");
                    }
                    Err(Error::MissingResponseField("clan_info.clan_info"))
                },
            },
            None => {
                proof {
                    reveal_strlit("clan_info");
                }
                Err(Error::MissingResponseField("clan_info"))
            },
        }
    }

    /// The clan chat from a response to `GetClanChat`.
    pub fn clan_chat_from_response(response: AppResponse) -> (r: Result<RustClanChat, Error>)
        ensures
            match response.clan_chat {
                Some(c) => r matches Ok(chat) && chat.converted_from(c),
                None => is_missing_field(r, "clan_chat"@),
            },
    {
        match response.clan_chat {
            Some(c) => Ok(RustClanChat::from(c)),
            None => {
                proof {
                    reveal_strlit("clan_chat");
                }
                Err(Error::MissingResponseField("clan_chat"))
            },
        }
    }

    /// The device from a response to `GetEntityInfo`.
    pub fn entity_info_from_response(response: AppResponse) -> (r: Result<RustEntityInfo, Error>)
        ensures
            match response.entity_info {
                Some(e) => r matches Ok(info) && info.converted_from(e),
                None => is_missing_field(r, "entity_info"@),
            },
    {
        match response.entity_info {
            Some(e) => Ok(RustEntityInfo::from(e)),
            None => {
                proof {
                    reveal_strlit("entity_info");
                }
                Err(Error::MissingResponseField("entity_info"))
            },
        }
    }

    /// Whether the player is subscribed to a device, from a response to
    /// `CheckSubscription`.
    pub fn subscription_from_response(response: AppResponse) -> (r: Result<bool, Error>)
        ensures
            match response.flag {
                Some(f) => r == Ok::<bool, Error>(f.value),
                None => is_missing_field(r, "flag"@),
            },
    {
        match response.flag {
            Some(f) => Ok(f.value),
            None => {
                proof {
                    reveal_strlit("flag");
                }
                Err(Error::MissingResponseField("flag"))
            },
        }
    }
}

} // verus!
