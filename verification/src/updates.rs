//! What the Telegram update stream turns into on the event stream.
use vstd::prelude::*;
use crate::convert::{message_dto, message_dto_of, MessageInfo};
use crate::protocol::Event;
use crate::retry::{backoff, backoff_ms, UPDATE_DELAY_CAP_MS};

verus! {

/// The offset of channel ids in the "marked" id space (`-1000000000000 - channel_id`).
pub const CHANNEL_ID_OFFSET: i64 = 1_000_000_000_000;

/// The chat a raw Telegram update refers to.
#[derive(Debug, Clone, PartialEq, Eq)]
pub enum RawPeer {
    User(i64),
    Chat(i64),
    Channel(i64),
}

/// One update from Telegram.
#[derive(Debug, Clone, PartialEq, Eq)]
pub enum UpdateInfo {
    NewMessage(MessageInfo),
    MessageEdited(MessageInfo),
    /// Messages deleted, by id (empty when the update carried no ids).
    MessagesDeleted(Vec<i32>),
    /// The reactions of a message changed.
    ReactionsChanged { peer: RawPeer, message_id: i32 },
    /// An update the gateway does not forward.
    Other,
}

/// Whether the marked id of `p` fits in an `i64`.
pub open spec fn peer_id_fits(p: RawPeer) -> bool {
    match p {
        RawPeer::User(_) => true,
        RawPeer::Chat(id) => id > i64::MIN,
        RawPeer::Channel(id) => id <= i64::MAX - CHANNEL_ID_OFFSET + 1,
    }
}

/// The marked id of a chat: users as they are, basic groups negated, channels below
/// `-1000000000000`.
pub open spec fn marked_id(p: RawPeer) -> int {
    match p {
        RawPeer::User(id) => id as int,
        RawPeer::Chat(id) => -id,
        RawPeer::Channel(id) => -CHANNEL_ID_OFFSET - id,
    }
}

/// The marked id of the chat that a raw update refers to.
pub fn marked_peer_id(p: &RawPeer) -> (res: i64)
    requires
        peer_id_fits(*p),
    ensures
        res == marked_id(*p),
{
    match p {
        RawPeer::User(id) => *id,
        RawPeer::Chat(id) => -*id,
        RawPeer::Channel(id) => -CHANNEL_ID_OFFSET - *id,
    }
}

/// Whether `u` can be turned into an event.
pub open spec fn update_fits(u: UpdateInfo) -> bool {
    match u {
        UpdateInfo::ReactionsChanged { peer, .. } => peer_id_fits(peer),
        _ => true,
    }
}

/// Whether `update` can be turned into an event (its chat id fits in an `i64`).
pub fn update_in_range(update: &UpdateInfo) -> (res: bool)
    ensures
        res == update_fits(*update),
{
    match update {
        UpdateInfo::ReactionsChanged { peer, .. } => match peer {
            RawPeer::User(_) => true,
            RawPeer::Chat(id) => *id > i64::MIN,
            RawPeer::Channel(id) => *id <= i64::MAX - CHANNEL_ID_OFFSET + 1,
        },
        _ => true,
    }
}

/// Whether `e` is the event that `u` gives.
pub open spec fn event_of(u: UpdateInfo, e: Option<Event>) -> bool {
    match u {
        UpdateInfo::NewMessage(m) => e matches Some(Event::NewMessage(d)) && message_dto_of(m, d),
        UpdateInfo::MessageEdited(m) => e matches Some(Event::MessageEdited(d)) && message_dto_of(
            m,
            d,
        ),
        UpdateInfo::MessagesDeleted(ids) => if ids@.len() == 0 {
            e is None
        } else {
            e matches Some(Event::MessagesDeleted { peer_id, message_ids }) && peer_id == 0
                && message_ids@ == ids@
        },
        UpdateInfo::ReactionsChanged { peer, message_id } => e matches Some(
            Event::ReactionUpdated { peer_id, message_id: m },
        ) && peer_id == marked_id(peer) && m == message_id,
        UpdateInfo::Other => e is None,
    }
}

/// The events that a broken update stream causes: announce the reconnect, wait, then
/// report that the session is back.
#[derive(Debug, Clone, PartialEq, Eq)]
pub struct ReconnectPlan {
    pub announce: Event,
    pub delay_ms: u64,
    pub resume: Event,
}

/// The state of the task that forwards Telegram updates: how many times in a row the
/// stream has failed.
pub struct UpdateFeed {
    failures: u32,
}

impl UpdateFeed {
    /// The number of consecutive failures of the stream.
    pub closed spec fn failures(&self) -> u32 {
        self.failures
    }

    /// A feed whose stream has not failed.
    pub fn new() -> (res: Self)
        ensures
            res.failures() == 0,
    {
        UpdateFeed { failures: 0 }
    }

    /// Handles an update: the stream works again, and the update may give an event.
    pub fn on_update(&mut self, update: UpdateInfo) -> (res: Option<Event>)
        requires
            update_fits(update),
        ensures
            final(self).failures() == 0,
            event_of(update, res),
    {
        self.failures = 0;
        match update {
            UpdateInfo::NewMessage(m) => Some(Event::NewMessage(message_dto(m))),
            UpdateInfo::MessageEdited(m) => Some(Event::MessageEdited(message_dto(m))),
            UpdateInfo::MessagesDeleted(ids) => {
                if ids.len() == 0 {
                    None
                } else {
                    Some(Event::MessagesDeleted { peer_id: 0, message_ids: ids })
                }
            },
            UpdateInfo::ReactionsChanged { peer, message_id } => {
                let peer_id = marked_peer_id(&peer);
                Some(Event::ReactionUpdated { peer_id, message_id })
            },
            UpdateInfo::Other => None,
        }
    }

    /// Handles a failure of the stream: one more failure, and the plan for the reconnect.
    pub fn on_stream_error(&mut self) -> (res: ReconnectPlan)
        ensures
            final(self).failures() == if old(self).failures() == u32::MAX {
                u32::MAX
            } else {
                (old(self).failures() + 1) as u32
            },
            res.announce is Reconnecting,
            res.delay_ms == backoff(final(self).failures() as nat, UPDATE_DELAY_CAP_MS as nat),
            res.resume matches Event::Status { authorized } && authorized,
    {
        self.failures = self.failures.saturating_add(1);
        ReconnectPlan {
            announce: Event::Reconnecting,
            delay_ms: backoff_ms(self.failures, UPDATE_DELAY_CAP_MS),
            resume: Event::Status { authorized: true },
        }
    }
}

} // verus!
