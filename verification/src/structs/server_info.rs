use vstd::prelude::*;
use vstd::std_specs::convert::FromSpecImpl;

use crate::proto::AppInfo;

verus! {

/// What a server says about itself.
#[derive(Debug, Clone)]
pub struct RustInfo {
    pub name: String,
    pub header_image: String,
    pub url: String,
    pub map: String,
    pub map_size: u32,
    pub wipe_time: u32,
    pub players: u32,
    pub max_players: u32,
    pub queued_players: u32,
    pub seed: u32,
    pub logo_image: String,
}

/// The record of a server's description: every field kept.
pub open spec fn info_of(info: AppInfo) -> RustInfo {
    RustInfo {
        name: info.name,
        header_image: info.header_image,
        url: info.url,
        map: info.map,
        map_size: info.map_size,
        wipe_time: info.wipe_time,
        players: info.players,
        max_players: info.max_players,
        queued_players: info.queued_players,
        seed: info.seed,
        logo_image: info.logo_image,
    }
}

impl FromSpecImpl<AppInfo> for RustInfo {
    open spec fn obeys_from_spec() -> bool {
        true
    }

    open spec fn from_spec(info: AppInfo) -> RustInfo {
        info_of(info)
    }
}

impl From<AppInfo> for RustInfo {
    /// Keeps every field of the server's description.
    fn from(info: AppInfo) -> (r: RustInfo) {
        RustInfo {
            name: info.name,
            header_image: info.header_image,
            url: info.url,
            map: info.map,
            map_size: info.map_size,
            wipe_time: info.wipe_time,
            players: info.players,
            max_players: info.max_players,
            queued_players: info.queued_players,
            seed: info.seed,
            logo_image: info.logo_image,
        }
    }
}

/// The server's description keeps every field under its own name.
pub proof fn lemma_info_keeps_fields(info: AppInfo)
    ensures
        info_of(info).name == info.name,
        info_of(info).header_image == info.header_image,
        info_of(info).url == info.url,
        info_of(info).map == info.map,
        info_of(info).map_size == info.map_size,
        info_of(info).wipe_time == info.wipe_time,
        info_of(info).players == info.players,
        info_of(info).max_players == info.max_players,
        info_of(info).queued_players == info.queued_players,
        info_of(info).seed == info.seed,
        info_of(info).logo_image == info.logo_image,
{
}

} // verus!
