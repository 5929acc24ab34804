//! The parts of a clan description.

use vstd::prelude::*;

verus! {

/// A clan role and its permissions.
#[derive(Debug, Clone)]
pub struct Role {
    pub role_id: i32,
    pub rank: i32,
    pub name: String,
    pub can_set_motd: bool,
    pub can_set_logo: bool,
    pub can_invite: bool,
    pub can_kick: bool,
    pub can_promote: bool,
    pub can_demote: bool,
    pub can_set_player_notes: bool,
    pub can_access_logs: bool,
}

/// A clan member.
#[derive(Debug, Clone)]
pub struct Member {
    pub steam_id: u64,
    pub role_id: i32,
    pub joined: i64,
    pub last_seen: i64,
    pub notes: String,
    pub online: bool,
}

/// An open invitation to the clan.
#[derive(Debug, Clone, Copy, PartialEq, Eq, Structural)]
pub struct Invite {
    pub steam_id: u64,
    pub recruiter: u64,
    pub timestamp: i64,
}

} // verus!
