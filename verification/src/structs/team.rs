use vstd::prelude::*;
use vstd::std_specs::convert::FromSpecImpl;

use crate::proto::{AppTeamChat, AppTeamMessage};

verus! {

/// One message of the team chat.
#[derive(Debug, Clone)]
pub struct RustTeamMessage {
    pub steam_id: u64,
    pub name: String,
    pub message: String,
    pub color: String,
    pub time: u32,
}

/// The team chat, oldest message first.
#[derive(Debug, Clone)]
pub struct RustTeamChat {
    pub messages: Vec<RustTeamMessage>,
}

/// The record of a team chat message: every field kept.
pub open spec fn team_message_of(m: AppTeamMessage) -> RustTeamMessage {
    RustTeamMessage {
        steam_id: m.steam_id,
        name: m.name,
        message: m.message,
        color: m.color,
        time: m.time,
    }
}

impl FromSpecImpl<AppTeamMessage> for RustTeamMessage {
    open spec fn obeys_from_spec() -> bool {
        true
    }

    open spec fn from_spec(m: AppTeamMessage) -> RustTeamMessage {
        team_message_of(m)
    }
}

impl From<AppTeamMessage> for RustTeamMessage {
    /// Keeps every field of the message.
    fn from(m: AppTeamMessage) -> (r: RustTeamMessage) {
        RustTeamMessage {
            steam_id: m.steam_id,
            name: m.name,
            message: m.message,
            color: m.color,
            time: m.time,
        }
    }
}

impl RustTeamChat {
    /// `self` holds the messages of `chat`, each converted, in order.
    pub open spec fn converted_from(&self, chat: AppTeamChat) -> bool {
        &&& self.messages@.len() == chat.messages@.len()
        &&& forall|i: int|
            0 <= i < chat.messages@.len() ==> #[trigger] self.messages@[i]
                == team_message_of(chat.messages@[i])
    }
}

impl FromSpecImpl<AppTeamChat> for RustTeamChat {
    open spec fn obeys_from_spec() -> bool {
        false
    }

    open spec fn from_spec(chat: AppTeamChat) -> RustTeamChat {
        choose|r: RustTeamChat| r.converted_from(chat)
    }
}

impl From<AppTeamChat> for RustTeamChat {
    /// Converts every message, keeping their order.
    fn from(chat: AppTeamChat) -> (r: RustTeamChat)
        ensures
            r.converted_from(chat),
    {
        let mut messages: Vec<RustTeamMessage> = Vec::new();
        for m in it: chat.messages.into_iter()
            invariant
                it.seq() == chat.messages@,
                messages@.len() == it.index(),
                forall|i: int|
                    0 <= i < it.index() ==> #[trigger] messages@[i] == team_message_of(
                        chat.messages@[i],
                    ),
        {
            messages.push(RustTeamMessage::from(m));
        }
        RustTeamChat { messages }
    }
}

/// A converted team chat message keeps its sender, text, colour and time.
pub proof fn lemma_team_message_keeps_fields(m: AppTeamMessage)
    ensures
        team_message_of(m).steam_id == m.steam_id,
        team_message_of(m).name == m.name,
        team_message_of(m).message == m.message,
        team_message_of(m).color == m.color,
        team_message_of(m).time == m.time,
{
}

/// A converted team chat has as many messages as the original, and the
/// message at each position is the original's message at that same
/// position, with every field kept: the chat stays oldest first.
pub proof fn lemma_team_chat_in_order(r: RustTeamChat, chat: AppTeamChat)
    requires
        r.converted_from(chat),
    ensures
        r.messages@.len() == chat.messages@.len(),
        forall|i: int|
            #![trigger r.messages@[i]]
            0 <= i < chat.messages@.len() ==> {
                &&& r.messages@[i].steam_id == chat.messages@[i].steam_id
                &&& r.messages@[i].name == chat.messages@[i].name
                &&& r.messages@[i].message == chat.messages@[i].message
                &&& r.messages@[i].color == chat.messages@[i].color
                &&& r.messages@[i].time == chat.messages@[i].time
            },
{
}

} // verus!
