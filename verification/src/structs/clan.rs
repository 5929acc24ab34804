use vstd::prelude::*;
use vstd::std_specs::convert::FromSpecImpl;

use crate::proto::clan_info::{Invite, Member, Role};
use crate::proto::{AppClanChat, AppClanMessage, ClanInfo};

verus! {

/// A clan, with its roles, members and open invitations.
#[derive(Debug, Clone)]
pub struct RustClanInfo {
    pub clan_id: i64,
    pub name: String,
    pub created: i64,
    pub creator: u64,
    pub motd: String,
    pub motd_timestamp: i64,
    pub motd_author: u64,
    pub logo: Vec<u8>,
    pub color: i32,
    pub roles: Vec<RustRole>,
    pub members: Vec<RustMember>,
    pub invites: Vec<RustInvite>,
    pub max_member_count: i32,
}

/// A clan role and its permissions.
#[derive(Debug, Clone)]
pub struct RustRole {
    pub role_id: i32,
    pub rank: i32,
    pub name: String,
    pub can_set_motd: bool,
    pub can_set_logo: bool,
    pub can_invite: bool,
    pub can_kick: bool,
    pub can_promote: bool,
    pub can_demote: bool,
    pub can_set_player_notes: bool,
    pub can_access_logs: bool,
}

/// A clan member.
#[derive(Debug, Clone)]
pub struct RustMember {
    pub steam_id: u64,
    pub role_id: i32,
    pub joined: i64,
    pub last_seen: i64,
    pub notes: String,
    pub online: bool,
}

/// An open invitation to the clan.
#[derive(Debug, Clone, Copy, PartialEq, Eq, Structural)]
pub struct RustInvite {
    pub steam_id: u64,
    pub recruiter: u64,
    pub timestamp: i64,
}

/// One message of the clan chat.
#[derive(Debug, Clone)]
pub struct RustClanMessage {
    pub steam_id: u64,
    pub name: String,
    pub message: String,
    pub time: i64,
}

/// The clan chat, oldest message first.
#[derive(Debug, Clone)]
pub struct RustClanChat {
    pub messages: Vec<RustClanMessage>,
}

/// The record of a clan role: every field kept.
pub open spec fn role_of(role: Role) -> RustRole {
    RustRole {
        role_id: role.role_id,
        rank: role.rank,
        name: role.name,
        can_set_motd: role.can_set_motd,
        can_set_logo: role.can_set_logo,
        can_invite: role.can_invite,
        can_kick: role.can_kick,
        can_promote: role.can_promote,
        can_demote: role.can_demote,
        can_set_player_notes: role.can_set_player_notes,
        can_access_logs: role.can_access_logs,
    }
}

/// The record of a clan member: every field kept.
pub open spec fn member_of(member: Member) -> RustMember {
    RustMember {
        steam_id: member.steam_id,
        role_id: member.role_id,
        joined: member.joined,
        last_seen: member.last_seen,
        notes: member.notes,
        online: member.online,
    }
}

/// The record of an invitation: every field kept.
pub open spec fn invite_of(invite: Invite) -> RustInvite {
    RustInvite {
        steam_id: invite.steam_id,
        recruiter: invite.recruiter,
        timestamp: invite.timestamp,
    }
}

/// The record of a clan chat message: every field kept.
pub open spec fn clan_message_of(m: AppClanMessage) -> RustClanMessage {
    RustClanMessage { steam_id: m.steam_id, name: m.name, message: m.message, time: m.time }
}

impl FromSpecImpl<Role> for RustRole {
    open spec fn obeys_from_spec() -> bool {
        true
    }

    open spec fn from_spec(role: Role) -> RustRole {
        role_of(role)
    }
}

impl From<Role> for RustRole {
    /// Keeps the role's id, rank, name and every permission.
    fn from(role: Role) -> (r: RustRole) {
        RustRole {
            role_id: role.role_id,
            rank: role.rank,
            name: role.name,
            can_set_motd: role.can_set_motd,
            can_set_logo: role.can_set_logo,
            can_invite: role.can_invite,
            can_kick: role.can_kick,
            can_promote: role.can_promote,
            can_demote: role.can_demote,
            can_set_player_notes: role.can_set_player_notes,
            can_access_logs: role.can_access_logs,
        }
    }
}

impl FromSpecImpl<Member> for RustMember {
    open spec fn obeys_from_spec() -> bool {
        true
    }

    open spec fn from_spec(member: Member) -> RustMember {
        member_of(member)
    }
}

impl From<Member> for RustMember {
    /// Keeps every field of the member.
    fn from(member: Member) -> (r: RustMember) {
        RustMember {
            steam_id: member.steam_id,
            role_id: member.role_id,
            joined: member.joined,
            last_seen: member.last_seen,
            notes: member.notes,
            online: member.online,
        }
    }
}

impl FromSpecImpl<Invite> for RustInvite {
    open spec fn obeys_from_spec() -> bool {
        true
    }

    open spec fn from_spec(invite: Invite) -> RustInvite {
        invite_of(invite)
    }
}

impl From<Invite> for RustInvite {
    /// Keeps the invitee, the recruiter and the time.
    fn from(invite: Invite) -> (r: RustInvite) {
        RustInvite {
            steam_id: invite.steam_id,
            recruiter: invite.recruiter,
            timestamp: invite.timestamp,
        }
    }
}

impl FromSpecImpl<AppClanMessage> for RustClanMessage {
    open spec fn obeys_from_spec() -> bool {
        true
    }

    open spec fn from_spec(m: AppClanMessage) -> RustClanMessage {
        clan_message_of(m)
    }
}

impl From<AppClanMessage> for RustClanMessage {
    /// Keeps the sender, the text and the time.
    fn from(m: AppClanMessage) -> (r: RustClanMessage) {
        RustClanMessage { steam_id: m.steam_id, name: m.name, message: m.message, time: m.time }
    }
}

impl RustClanInfo {
    /// `self` is `info` with every scalar field, the logo bytes and the
    /// message of the day kept, and every role, member and invitation
    /// converted in order.
    pub open spec fn converted_from(&self, info: ClanInfo) -> bool {
        &&& self.clan_id == info.clan_id
        &&& self.name == info.name
        &&& self.created == info.created
        &&& self.creator == info.creator
        &&& self.motd == info.motd
        &&& self.motd_timestamp == info.motd_timestamp
        &&& self.motd_author == info.motd_author
        &&& self.logo == info.logo
        &&& self.color == info.color
        &&& self.max_member_count == info.max_member_count
        &&& self.roles@.len() == info.roles@.len()
        &&& forall|i: int|
            0 <= i < info.roles@.len() ==> #[trigger] self.roles@[i] == role_of(info.roles@[i])
        &&& self.members@.len() == info.members@.len()
        &&& forall|i: int|
            0 <= i < info.members@.len() ==> #[trigger] self.members@[i] == member_of(
                info.members@[i],
            )
        &&& self.invites@.len() == info.invites@.len()
        &&& forall|i: int|
            0 <= i < info.invites@.len() ==> #[trigger] self.invites@[i] == invite_of(
                info.invites@[i],
            )
    }
}

/// A record that holds vectors has no single value to name in a
/// specification; what `from` gives is stated by `converted_from`.
impl FromSpecImpl<ClanInfo> for RustClanInfo {
    open spec fn obeys_from_spec() -> bool {
        false
    }

    open spec fn from_spec(info: ClanInfo) -> RustClanInfo {
        choose|r: RustClanInfo| r.converted_from(info)
    }
}

impl From<ClanInfo> for RustClanInfo {
    /// Keeps every field of the clan and converts its roles, members and
    /// invitations in order.
    fn from(clan_info: ClanInfo) -> (r: RustClanInfo)
        ensures
            r.converted_from(clan_info),
    {
        let ghost original = clan_info;
        let ClanInfo {
            clan_id,
            name,
            created,
            creator,
            motd,
            motd_timestamp,
            motd_author,
            logo,
            color,
            roles,
            members,
            invites,
            max_member_count,
        } = clan_info;
        let mut rust_roles: Vec<RustRole> = Vec::new();
        for role in it: roles.into_iter()
            invariant
                it.seq() == original.roles@,
                rust_roles@.len() == it.index(),
                forall|i: int|
                    0 <= i < it.index() ==> #[trigger] rust_roles@[i] == role_of(
                        original.roles@[i],
                    ),
        {
            rust_roles.push(RustRole::from(role));
        }
        let mut rust_members: Vec<RustMember> = Vec::new();
        for member in it: members.into_iter()
            invariant
                it.seq() == original.members@,
                rust_members@.len() == it.index(),
                forall|i: int|
                    0 <= i < it.index() ==> #[trigger] rust_members@[i] == member_of(
                        original.members@[i],
                    ),
        {
            rust_members.push(RustMember::from(member));
        }
        let mut rust_invites: Vec<RustInvite> = Vec::new();
        for invite in it: invites.into_iter()
            invariant
                it.seq() == original.invites@,
                rust_invites@.len() == it.index(),
                forall|i: int|
                    0 <= i < it.index() ==> #[trigger] rust_invites@[i] == invite_of(
                        original.invites@[i],
                    ),
        {
            rust_invites.push(RustInvite::from(invite));
        }
        RustClanInfo {
            clan_id,
            name,
            created,
            creator,
            motd,
            motd_timestamp,
            motd_author,
            logo,
            color,
            roles: rust_roles,
            members: rust_members,
            invites: rust_invites,
            max_member_count,
        }
    }
}

impl RustClanChat {
    /// `self` holds the messages of `chat`, each converted, in order.
    pub open spec fn converted_from(&self, chat: AppClanChat) -> bool {
        &&& self.messages@.len() == chat.messages@.len()
        &&& forall|i: int|
            0 <= i < chat.messages@.len() ==> #[trigger] self.messages@[i] == clan_message_of(
                chat.messages@[i],
            )
    }
}

/// What `from` gives is stated by `converted_from`.
impl FromSpecImpl<AppClanChat> for RustClanChat {
    open spec fn obeys_from_spec() -> bool {
        false
    }

    open spec fn from_spec(chat: AppClanChat) -> RustClanChat {
        choose|r: RustClanChat| r.converted_from(chat)
    }
}

impl From<AppClanChat> for RustClanChat {
    /// Converts every message, keeping their order.
    fn from(clan_chat: AppClanChat) -> (r: RustClanChat)
        ensures
            r.converted_from(clan_chat),
    {
        let mut messages: Vec<RustClanMessage> = Vec::new();
        for m in it: clan_chat.messages.into_iter()
            invariant
                it.seq() == clan_chat.messages@,
                messages@.len() == it.index(),
                forall|i: int|
                    0 <= i < it.index() ==> #[trigger] messages@[i] == clan_message_of(
                        clan_chat.messages@[i],
                    ),
        {
            messages.push(RustClanMessage::from(m));
        }
        RustClanChat { messages }
    }
}

/// A converted role keeps its id, rank, name and each permission under
/// its own name.
pub proof fn lemma_role_keeps_permissions(role: Role)
    ensures
        role_of(role).role_id == role.role_id,
        role_of(role).rank == role.rank,
        role_of(role).name == role.name,
        role_of(role).can_set_motd == role.can_set_motd,
        role_of(role).can_set_logo == role.can_set_logo,
        role_of(role).can_invite == role.can_invite,
        role_of(role).can_kick == role.can_kick,
        role_of(role).can_promote == role.can_promote,
        role_of(role).can_demote == role.can_demote,
        role_of(role).can_set_player_notes == role.can_set_player_notes,
        role_of(role).can_access_logs == role.can_access_logs,
{
}

/// A converted member keeps every field under its own name.
pub proof fn lemma_member_keeps_fields(member: Member)
    ensures
        member_of(member).steam_id == member.steam_id,
        member_of(member).role_id == member.role_id,
        member_of(member).joined == member.joined,
        member_of(member).last_seen == member.last_seen,
        member_of(member).notes == member.notes,
        member_of(member).online == member.online,
{
}

/// A converted invitation keeps the invitee, the recruiter and the time.
pub proof fn lemma_invite_keeps_fields(invite: Invite)
    ensures
        invite_of(invite).steam_id == invite.steam_id,
        invite_of(invite).recruiter == invite.recruiter,
        invite_of(invite).timestamp == invite.timestamp,
{
}

/// A converted clan chat message keeps its sender, text and time.
pub proof fn lemma_clan_message_keeps_fields(m: AppClanMessage)
    ensures
        clan_message_of(m).steam_id == m.steam_id,
        clan_message_of(m).name == m.name,
        clan_message_of(m).message == m.message,
        clan_message_of(m).time == m.time,
{
}

/// A converted clan keeps every scalar field, and its roles, members and
/// invitations position by position, each with its fields under their own
/// names.
pub proof fn lemma_clan_info_in_order(r: RustClanInfo, info: ClanInfo)
    requires
        r.converted_from(info),
    ensures
        r.clan_id == info.clan_id,
        r.name == info.name,
        r.created == info.created,
        r.creator == info.creator,
        r.motd == info.motd,
        r.motd_timestamp == info.motd_timestamp,
        r.motd_author == info.motd_author,
        r.logo == info.logo,
        r.color == info.color,
        r.max_member_count == info.max_member_count,
        r.roles@.len() == info.roles@.len(),
        r.members@.len() == info.members@.len(),
        r.invites@.len() == info.invites@.len(),
        forall|i: int|
            #![trigger r.roles@[i]]
            0 <= i < info.roles@.len() ==> {
                &&& r.roles@[i].role_id == info.roles@[i].role_id
                &&& r.roles@[i].rank == info.roles@[i].rank
                &&& r.roles@[i].name == info.roles@[i].name
                &&& r.roles@[i].can_set_motd == info.roles@[i].can_set_motd
                &&& r.roles@[i].can_set_logo == info.roles@[i].can_set_logo
                &&& r.roles@[i].can_invite == info.roles@[i].can_invite
                &&& r.roles@[i].can_kick == info.roles@[i].can_kick
                &&& r.roles@[i].can_promote == info.roles@[i].can_promote
                &&& r.roles@[i].can_demote == info.roles@[i].can_demote
                &&& r.roles@[i].can_set_player_notes == info.roles@[i].can_set_player_notes
                &&& r.roles@[i].can_access_logs == info.roles@[i].can_access_logs
            },
        forall|i: int|
            #![trigger r.members@[i]]
            0 <= i < info.members@.len() ==> {
                &&& r.members@[i].steam_id == info.members@[i].steam_id
                &&& r.members@[i].role_id == info.members@[i].role_id
                &&& r.members@[i].joined == info.members@[i].joined
                &&& r.members@[i].last_seen == info.members@[i].last_seen
                &&& r.members@[i].notes == info.members@[i].notes
                &&& r.members@[i].online == info.members@[i].online
            },
        forall|i: int|
            #![trigger r.invites@[i]]
            0 <= i < info.invites@.len() ==> {
                &&& r.invites@[i].steam_id == info.invites@[i].steam_id
                &&& r.invites@[i].recruiter == info.invites@[i].recruiter
                &&& r.invites@[i].timestamp == info.invites@[i].timestamp
            },
{
}

/// A converted clan chat keeps the messages in their order, each with its
/// fields under their own names.
pub proof fn lemma_clan_chat_in_order(r: RustClanChat, chat: AppClanChat)
    requires
        r.converted_from(chat),
    ensures
        r.messages@.len() == chat.messages@.len(),
        forall|i: int|
            #![trigger r.messages@[i]]
            0 <= i < chat.messages@.len() ==> {
                &&& r.messages@[i].steam_id == chat.messages@[i].steam_id
                &&& r.messages@[i].name == chat.messages@[i].name
                &&& r.messages@[i].message == chat.messages@[i].message
                &&& r.messages@[i].time == chat.messages@[i].time
            },
{
}

} // verus!
