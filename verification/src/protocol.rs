//! The values that the gateway and its clients exchange.
//!
//! Timestamps are Unix seconds; the wire form (JSON) is produced outside the library.
use vstd::prelude::*;

verus! {

/// `GET /health`: server state and whether Telegram is authorized.
#[derive(Debug, Clone, PartialEq, Eq)]
pub struct HealthResponse {
    pub status: String,
    pub telegram_authorized: bool,
    pub version: String,
}

/// The signed-in Telegram account.
#[derive(Debug, Clone, PartialEq, Eq)]
pub struct MeResponse {
    pub id: i64,
    pub username: Option<String>,
    pub first_name: Option<String>,
    pub last_name: Option<String>,
}

/// What a message's media is, as far as a client needs to know to show or fetch it.
#[derive(Debug, Clone, PartialEq, Eq)]
pub struct MediaDto {
    pub kind: String,
    pub filename: Option<String>,
    pub mime: Option<String>,
    pub size: Option<i64>,
}

/// One message.
#[derive(Debug, Clone, PartialEq, Eq)]
pub struct MessageDto {
    pub id: i32,
    pub peer_id: i64,
    pub text: String,
    pub outgoing: bool,
    /// Unix seconds.
    pub date: Option<i64>,
    pub reply_to: Option<i32>,
    pub edited: bool,
    pub reaction_count: i32,
    pub media: Option<MediaDto>,
}

/// One entry of the chat list.
#[derive(Debug, Clone, PartialEq, Eq)]
pub struct DialogDto {
    pub id: i64,
    pub name: String,
    pub username: Option<String>,
    pub kind: String,
    pub last_message: Option<MessageDto>,
    pub unread_count: i32,
}

/// A page of history, oldest message first.
#[derive(Debug, Clone, PartialEq, Eq)]
pub struct MessagesResponse {
    pub messages: Vec<MessageDto>,
    pub has_more: bool,
}

/// Search hits.
#[derive(Debug, Clone, PartialEq, Eq)]
pub struct SearchResponse {
    pub messages: Vec<MessageDto>,
}

/// `POST /api/v1/messages/send`.
#[derive(Debug, Clone, PartialEq, Eq)]
pub struct SendMessageRequest {
    pub peer: String,
    pub text: String,
    pub reply_to: Option<i32>,
}

/// The message that was sent.
#[derive(Debug, Clone, PartialEq, Eq)]
pub struct SendMessageResponse {
    pub message_id: i32,
    pub peer_id: i64,
}

/// `POST /api/v1/messages/edit`.
#[derive(Debug, Clone, PartialEq, Eq)]
pub struct EditMessageRequest {
    pub peer: String,
    pub message_id: i32,
    pub text: String,
}

/// `POST /api/v1/messages/delete`.
#[derive(Debug, Clone, PartialEq, Eq)]
pub struct DeleteMessagesRequest {
    pub peer: String,
    pub message_ids: Vec<i32>,
}

/// `POST /api/v1/messages/forward`.
#[derive(Debug, Clone, PartialEq, Eq)]
pub struct ForwardMessagesRequest {
    pub source: String,
    pub destination: String,
    pub message_ids: Vec<i32>,
}

/// `POST /api/v1/messages/react`; no reaction (or a blank one) removes the reaction.
#[derive(Debug, Clone, PartialEq, Eq)]
pub struct ReactRequest {
    pub peer: String,
    pub message_id: i32,
    pub reaction: Option<String>,
}

/// `POST /api/v1/messages/read`.
#[derive(Debug, Clone, PartialEq, Eq)]
pub struct MarkReadRequest {
    pub peer: String,
}

/// `POST /api/v1/auth/start`.
#[derive(Debug, Clone, PartialEq, Eq)]
pub struct LoginStartRequest {
    pub phone: String,
}

/// The answer to a login start.
#[derive(Debug, Clone, PartialEq, Eq)]
pub struct LoginStartResponse {
    pub status: String,
    pub requires_code: bool,
}

/// `POST /api/v1/auth/complete`.
#[derive(Debug, Clone, PartialEq, Eq)]
pub struct LoginCompleteRequest {
    pub code: String,
}

/// `POST /api/v1/auth/password`.
#[derive(Debug, Clone, PartialEq, Eq)]
pub struct PasswordRequest {
    pub password: String,
}

/// The body of every error answer.
#[derive(Debug, Clone, PartialEq, Eq)]
pub struct ApiError {
    pub error: String,
}

/// What the realtime event stream carries.
#[derive(Debug, Clone, PartialEq, Eq)]
pub enum Event {
    NewMessage(MessageDto),
    MessageEdited(MessageDto),
    MessagesDeleted { peer_id: i64, message_ids: Vec<i32> },
    ReactionUpdated { peer_id: i64, message_id: i32 },
    Connected,
    Reconnecting,
    Status { authorized: bool },
}

impl ReactRequest {
    /// The reaction to set: the requested one unless it is absent or blank, in which case
    /// the reaction is removed (`None`).
    pub fn reaction_to_send(&self) -> (res: Option<String>)
        ensures
            match self.reaction {
                Some(r) if crate::text::trim(r@).len() > 0 => res == Some(r),
                _ => res is None,
            },
    {
        match &self.reaction {
            Some(r) => {
                if crate::text::is_blank(r.as_str()) {
                    None
                } else {
                    Some(r.clone())
                }
            },
            None => None,
        }
    }
}

impl LoginStartResponse {
    /// The answer once Telegram has sent the login code.
    pub fn code_sent() -> (res: Self)
        ensures
            res.status@ == "code_sent"@,
            res.requires_code,
    {
        LoginStartResponse { status: crate::text::string_of("code_sent"), requires_code: true }
    }
}

impl ApiError {
    /// An error answer with the given message.
    pub fn new(error: String) -> (res: Self)
        ensures
            res.error == error,
    {
        ApiError { error }
    }

    /// The answer to a request that lacks the right token.
    pub fn unauthorized() -> (res: Self)
        ensures
            res.error@ == "unauthorized"@,
    {
        ApiError { error: crate::text::string_of("unauthorized") }
    }
}

impl HealthResponse {
    /// The health answer: `ok`, with the Telegram authorization state and the server version.
    pub fn ok(telegram_authorized: bool, version: String) -> (res: Self)
        ensures
            res.status@ == "ok"@,
            res.telegram_authorized == telegram_authorized,
            res.version == version,
    {
        HealthResponse { status: crate::text::string_of("ok"), telegram_authorized, version }
    }
}

} // verus!
