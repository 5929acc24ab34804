//! Turning a server broadcast into a typed event.

use vstd::prelude::*;

use crate::proto::{AppBroadcast, AppClanMessage, AppEntityPayload, AppTeamMessage, ClanInfo};
use crate::structs::clan::{clan_message_of, RustClanInfo, RustClanMessage};
use crate::structs::entity::RustEntityPayload;
use crate::structs::team::{team_message_of, RustTeamMessage};

verus! {

/// Something that happened on the server. The team description `TI` and
/// the camera rays `CR` carry floating-point data and are type parameters.
#[derive(Debug, Clone)]
pub enum RustEvent<TI, CR> {
    TeamChanged { player_id: u64, team_info: TI },
    TeamMessage(RustTeamMessage),
    EntityChanged { entity_id: u32, payload: RustEntityPayload },
    ClanChanged(RustClanInfo),
    ClanMessage { clan_id: i64, message: RustClanMessage },
    CameraRays(CR),
}

/// `r` is the event that `b` announces. The parts of a broadcast are read
/// in the order team change, team message, entity change, clan change, clan
/// message, camera rays; the first part present decides. When that part
/// lacks its content, there is no event, whatever later parts hold; when no
/// part is present, there is none either.
pub open spec fn event_of<TI, CR>(b: AppBroadcast<TI, CR>, r: Option<RustEvent<TI, CR>>) -> bool {
    if let Some(tc) = b.team_changed {
        match tc.team_info {
            Some(ti) => r == Some(RustEvent::<TI, CR>::TeamChanged { player_id: tc.player_id, team_info: ti }),
            None => r is None,
        }
    } else if let Some(tm) = b.team_message {
        match tm.message {
            Some(m) => r == Some(RustEvent::<TI, CR>::TeamMessage(team_message_of(m))),
            None => r is None,
        }
    } else if let Some(ec) = b.entity_changed {
        match ec.payload {
            Some(p) => r matches Some(RustEvent::EntityChanged { entity_id, payload })
                && entity_id == ec.entity_id && payload.converted_from(p),
            None => r is None,
        }
    } else if let Some(cc) = b.clan_changed {
        match cc.clan_info {
            Some(ci) => r matches Some(RustEvent::ClanChanged(info)) && info.converted_from(ci),
            None => r is None,
        }
    } else if let Some(cm) = b.clan_message {
        match cm.message {
            Some(m) => r == Some(
                RustEvent::<TI, CR>::ClanMessage { clan_id: cm.clan_id, message: clan_message_of(m) },
            ),
            None => r is None,
        }
    } else if let Some(rays) = b.camera_rays {
        r == Some(RustEvent::<TI, CR>::CameraRays(rays))
    } else {
        r is None
    }
}

/// The event that a broadcast announces, if any; see [`event_of`].
pub fn into_event<TI, CR>(broadcast: AppBroadcast<TI, CR>) -> (r: Option<RustEvent<TI, CR>>)
    ensures
        event_of(broadcast, r),
{
    if let Some(team_changed) = broadcast.team_changed {
        return match team_changed.team_info {
            Some(team_info) => Some(
                RustEvent::TeamChanged { player_id: team_changed.player_id, team_info },
            ),
            None => None,
        };
    }
    if let Some(team_message) = broadcast.team_message {
        return match team_message.message {
            Some(m) => Some(RustEvent::TeamMessage(RustTeamMessage::from(m))),
            None => None,
        };
    }
    if let Some(entity_changed) = broadcast.entity_changed {
        return match entity_changed.payload {
            Some(p) => Some(
                RustEvent::EntityChanged {
                    entity_id: entity_changed.entity_id,
                    payload: RustEntityPayload::from(p),
                },
            ),
            None => None,
        };
    }
    if let Some(clan_changed) = broadcast.clan_changed {
        return match clan_changed.clan_info {
            Some(ci) => Some(RustEvent::ClanChanged(RustClanInfo::from(ci))),
            None => None,
        };
    }
    if let Some(clan_message) = broadcast.clan_message {
        return match clan_message.message {
            Some(m) => Some(
                RustEvent::ClanMessage {
                    clan_id: clan_message.clan_id,
                    message: RustClanMessage::from(m),
                },
            ),
            None => None,
        };
    }
    if let Some(camera_rays) = broadcast.camera_rays {
        return Some(RustEvent::CameraRays(camera_rays));
    }
    None
}

/// A team change with its team description is announced as a team change
/// by the same player, with that description.
pub proof fn lemma_team_change_event<TI, CR>(
    b: AppBroadcast<TI, CR>,
    r: Option<RustEvent<TI, CR>>,
    player_id: u64,
    ti: TI,
)
    requires
        event_of(b, r),
        b.team_changed matches Some(tc) && tc.player_id == player_id && tc.team_info == Some(ti),
    ensures
        r matches Some(RustEvent::TeamChanged { player_id: p, team_info: t }) && p == player_id
            && t == ti,
{
}

/// When the first part present is a team message with content, the event
/// is that message with every field kept.
pub proof fn lemma_team_message_event<TI, CR>(
    b: AppBroadcast<TI, CR>,
    r: Option<RustEvent<TI, CR>>,
    m: AppTeamMessage,
)
    requires
        event_of(b, r),
        b.team_changed is None,
        b.team_message matches Some(tm) && tm.message == Some(m),
    ensures
        r matches Some(RustEvent::TeamMessage(x)) && x.steam_id == m.steam_id && x.name == m.name
            && x.message == m.message && x.color == m.color && x.time == m.time,
{
}

/// When the first part present is an entity change with a state, the event
/// is a change of that entity with the state converted.
pub proof fn lemma_entity_change_event<TI, CR>(
    b: AppBroadcast<TI, CR>,
    r: Option<RustEvent<TI, CR>>,
    entity_id: u32,
    p: AppEntityPayload,
)
    requires
        event_of(b, r),
        b.team_changed is None,
        b.team_message is None,
        b.entity_changed matches Some(ec) && ec.entity_id == entity_id && ec.payload == Some(p),
    ensures
        r matches Some(RustEvent::EntityChanged { entity_id: e, payload: q }) && e == entity_id
            && q.value == p.value && q.capacity == p.capacity && q.has_protection
            == p.has_protection && q.protection_expiry == p.protection_expiry && q.items@.len()
            == p.items@.len(),
{
}

/// When the first part present is a clan change with a clan, the event is
/// a clan change carrying that clan, its fields kept and its roles, members
/// and invitations converted in order.
pub proof fn lemma_clan_change_event<TI, CR>(
    b: AppBroadcast<TI, CR>,
    r: Option<RustEvent<TI, CR>>,
    ci: ClanInfo,
)
    requires
        event_of(b, r),
        b.team_changed is None,
        b.team_message is None,
        b.entity_changed is None,
        b.clan_changed matches Some(cc) && cc.clan_info == Some(ci),
    ensures
        r matches Some(RustEvent::ClanChanged(info)) && info.converted_from(ci) && info.clan_id
            == ci.clan_id && info.name == ci.name && info.motd == ci.motd && info.roles@.len()
            == ci.roles@.len() && info.members@.len() == ci.members@.len() && info.invites@.len()
            == ci.invites@.len(),
{
}

/// When the first part present is a clan message with content, the event
/// is that message, from that clan, with every field kept.
pub proof fn lemma_clan_message_event<TI, CR>(
    b: AppBroadcast<TI, CR>,
    r: Option<RustEvent<TI, CR>>,
    clan_id: i64,
    m: AppClanMessage,
)
    requires
        event_of(b, r),
        b.team_changed is None,
        b.team_message is None,
        b.entity_changed is None,
        b.clan_changed is None,
        b.clan_message matches Some(cm) && cm.clan_id == clan_id && cm.message == Some(m),
    ensures
        r matches Some(RustEvent::ClanMessage { clan_id: c, message: x }) && c == clan_id
            && x.steam_id == m.steam_id && x.name == m.name && x.message == m.message && x.time
            == m.time,
{
}

/// When camera rays are the only part present, the event is those rays.
pub proof fn lemma_camera_rays_event<TI, CR>(
    b: AppBroadcast<TI, CR>,
    r: Option<RustEvent<TI, CR>>,
    rays: CR,
)
    requires
        event_of(b, r),
        b.team_changed is None,
        b.team_message is None,
        b.entity_changed is None,
        b.clan_changed is None,
        b.clan_message is None,
        b.camera_rays == Some(rays),
    ensures
        r == Some(RustEvent::<TI, CR>::CameraRays(rays)),
{
}

/// There is no event exactly when no part is present, or the first part
/// present lacks its content.
pub proof fn lemma_no_event<TI, CR>(b: AppBroadcast<TI, CR>, r: Option<RustEvent<TI, CR>>)
    requires
        event_of(b, r),
    ensures
        r is None <==> {
            ||| b.team_changed matches Some(tc) && tc.team_info is None
            ||| b.team_changed is None && (b.team_message matches Some(tm) && tm.message is None)
            ||| b.team_changed is None && b.team_message is None && (b.entity_changed matches Some(
                ec,
            ) && ec.payload is None)
            ||| b.team_changed is None && b.team_message is None && b.entity_changed is None && (
            b.clan_changed matches Some(cc) && cc.clan_info is None)
            ||| b.team_changed is None && b.team_message is None && b.entity_changed is None
                && b.clan_changed is None && (b.clan_message matches Some(cm) && cm.message is None)
            ||| b.team_changed is None && b.team_message is None && b.entity_changed is None
                && b.clan_changed is None && b.clan_message is None && b.camera_rays is None
        },
{
}

} // verus!
