//! From what Telegram reports to what the gateway sends.
//!
//! The Telegram client's own types stay outside the library: its caller copies into
//! `MediaInfo`, `MessageInfo` and `DialogInfo` the plain values that these conversions read.
use vstd::prelude::*;
use crate::protocol::{DialogDto, MediaDto, MessageDto};
use crate::text::string_of;

verus! {

/// A message's media, by kind.
#[derive(Debug, Clone, PartialEq, Eq)]
pub enum MediaInfo {
    /// A document with its file name (possibly empty) and MIME type.
    Document { name: String, mime: Option<String> },
    /// A sticker, with the name and MIME type of its document.
    Sticker { name: String, mime: Option<String> },
    Photo,
    Contact,
    Poll,
    /// A location, fixed or live.
    Geo,
    Dice,
    Venue,
    WebPage,
    /// Any other kind of media.
    Other,
}

/// A message as Telegram reports it.
#[derive(Debug, Clone, PartialEq, Eq)]
pub struct MessageInfo {
    pub id: i32,
    /// The bare id of the chat the message belongs to.
    pub peer_id: i64,
    pub text: String,
    pub outgoing: bool,
    /// Unix seconds.
    pub date: i64,
    pub reply_to: Option<i32>,
    /// Unix seconds of the last edit, if any.
    pub edit_date: Option<i64>,
    pub reaction_count: i32,
    pub media: Option<MediaInfo>,
}

/// The other side of a dialog.
#[derive(Debug, Clone, PartialEq, Eq)]
pub enum PeerInfo {
    User { username: Option<String> },
    Group,
    Channel { username: Option<String> },
}

/// A dialog as Telegram reports it.
#[derive(Debug, Clone, PartialEq, Eq)]
pub struct DialogInfo {
    pub peer: PeerInfo,
    /// The bare id of the peer.
    pub id: i64,
    pub name: Option<String>,
    pub last_message: Option<MessageInfo>,
    /// The unread count of a full dialog; `None` for a dialog of another kind.
    pub unread_count: Option<i32>,
}

/// The file name that a document's name gives: none when the name is empty.
pub open spec fn file_name_of(name: String) -> Option<String> {
    if name@.len() == 0 {
        None
    } else {
        Some(name)
    }
}

/// Whether `d` describes `m`.
pub open spec fn media_dto_of(m: MediaInfo, d: MediaDto) -> bool {
    &&& d.size is None
    &&& match m {
        MediaInfo::Document { name, mime } => d.kind@ == "document"@ && d.filename == file_name_of(
            name,
        ) && d.mime == mime,
        MediaInfo::Sticker { name, mime } => d.kind@ == "sticker"@ && d.filename == file_name_of(
            name,
        ) && d.mime == mime,
        MediaInfo::Photo => d.kind@ == "photo"@ && d.filename is None && (d.mime matches Some(
            t,
        ) && t@ == "image/jpeg"@),
        MediaInfo::Contact => d.kind@ == "contact"@ && d.filename is None && (d.mime matches Some(
            t,
        ) && t@ == "text/vcard"@),
        MediaInfo::Poll => d.kind@ == "poll"@ && d.filename is None && d.mime is None,
        MediaInfo::Geo => d.kind@ == "geo"@ && d.filename is None && d.mime is None,
        MediaInfo::Dice => d.kind@ == "dice"@ && d.filename is None && d.mime is None,
        MediaInfo::Venue => d.kind@ == "venue"@ && d.filename is None && d.mime is None,
        MediaInfo::WebPage => d.kind@ == "webpage"@ && d.filename is None && d.mime is None,
        MediaInfo::Other => d.kind@ == "media"@ && d.filename is None && d.mime is None,
    }
}

/// Whether `d` describes `m`.
pub open spec fn message_dto_of(m: MessageInfo, d: MessageDto) -> bool {
    &&& d.id == m.id
    &&& d.peer_id == m.peer_id
    &&& d.text == m.text
    &&& d.outgoing == m.outgoing
    &&& d.date == Some(m.date)
    &&& d.reply_to == m.reply_to
    &&& d.edited == m.edit_date is Some
    &&& d.reaction_count == m.reaction_count
    &&& match m.media {
        None => d.media is None,
        Some(media) => d.media matches Some(md) && media_dto_of(media, md),
    }
}

/// Whether `d` describes `dialog`.
pub open spec fn dialog_dto_of(dialog: DialogInfo, d: DialogDto) -> bool {
    &&& d.id == dialog.id
    &&& d.name@ == match dialog.name {
        Some(n) => n@,
        None => Seq::<char>::empty(),
    }
    &&& match dialog.peer {
        PeerInfo::User { username } => d.kind@ == "user"@ && d.username == username,
        PeerInfo::Group => d.kind@ == "group"@ && d.username is None,
        PeerInfo::Channel { username } => d.kind@ == "channel"@ && d.username == username,
    }
    &&& match dialog.last_message {
        None => d.last_message is None,
        Some(m) => d.last_message matches Some(md) && message_dto_of(m, md),
    }
    &&& d.unread_count == match dialog.unread_count {
        Some(n) => n,
        None => 0i32,
    }
}

fn file_name(name: String) -> (res: Option<String>)
    ensures
        res == file_name_of(name),
{
    if name.as_str().is_empty() {
        None
    } else {
        Some(name)
    }
}

fn plain_media(kind: &str) -> (res: MediaDto)
    ensures
        res.kind@ == kind@,
        res.filename is None,
        res.mime is None,
        res.size is None,
{
    MediaDto { kind: string_of(kind), filename: None, mime: None, size: None }
}

/// Describes a message's media.
pub fn media_dto(media: MediaInfo) -> (res: MediaDto)
    ensures
        media_dto_of(media, res),
        res.size is None,
        media matches MediaInfo::Document { name, mime } ==> res.kind@ == "document"@ && res.mime
            == mime && (if name@.len() == 0 {
            res.filename is None
        } else {
            res.filename == Some(name)
        }),
        media matches MediaInfo::Sticker { name, mime } ==> res.kind@ == "sticker"@ && res.mime
            == mime && (if name@.len() == 0 {
            res.filename is None
        } else {
            res.filename == Some(name)
        }),
{
    match media {
        MediaInfo::Document { name, mime } => MediaDto {
            kind: string_of("document"),
            filename: file_name(name),
            mime,
            size: None,
        },
        MediaInfo::Sticker { name, mime } => MediaDto {
            kind: string_of("sticker"),
            filename: file_name(name),
            mime,
            size: None,
        },
        MediaInfo::Photo => MediaDto {
            kind: string_of("photo"),
            filename: None,
            mime: Some(string_of("image/jpeg")),
            size: None,
        },
        MediaInfo::Contact => MediaDto {
            kind: string_of("contact"),
            filename: None,
            mime: Some(string_of("text/vcard")),
            size: None,
        },
        MediaInfo::Poll => plain_media("poll"),
        MediaInfo::Geo => plain_media("geo"),
        MediaInfo::Dice => plain_media("dice"),
        MediaInfo::Venue => plain_media("venue"),
        MediaInfo::WebPage => plain_media("webpage"),
        MediaInfo::Other => plain_media("media"),
    }
}

/// Describes a message.
pub fn message_dto(m: MessageInfo) -> (res: MessageDto)
    ensures
        message_dto_of(m, res),
        res.id == m.id,
        res.peer_id == m.peer_id,
        res.text == m.text,
        res.outgoing == m.outgoing,
        res.date == Some(m.date),
        res.reply_to == m.reply_to,
        res.edited == (m.edit_date is Some),
        res.reaction_count == m.reaction_count,
        (res.media is None) == (m.media is None),
{
    let edited = m.edit_date.is_some();
    let media = match m.media {
        None => None,
        Some(media) => Some(media_dto(media)),
    };
    MessageDto {
        id: m.id,
        peer_id: m.peer_id,
        text: m.text,
        outgoing: m.outgoing,
        date: Some(m.date),
        reply_to: m.reply_to,
        edited,
        reaction_count: m.reaction_count,
        media,
    }
}

/// Describes a dialog.
pub fn dialog_dto(dialog: DialogInfo) -> (res: DialogDto)
    ensures
        dialog_dto_of(dialog, res),
        res.id == dialog.id,
        dialog.name matches Some(n) ==> res.name == n,
        dialog.name is None ==> res.name@.len() == 0,
        dialog.peer matches PeerInfo::User { username } ==> res.kind@ == "user"@ && res.username
            == username,
        dialog.peer is Group ==> res.kind@ == "group"@ && res.username is None,
        dialog.peer matches PeerInfo::Channel { username } ==> res.kind@ == "channel"@
            && res.username == username,
        (res.last_message is None) == (dialog.last_message is None),
        dialog.unread_count matches Some(n) ==> res.unread_count == n,
        dialog.unread_count is None ==> res.unread_count == 0,
{
    let (username, kind) = match dialog.peer {
        PeerInfo::User { username } => (username, string_of("user")),
        PeerInfo::Group => (None, string_of("group")),
        PeerInfo::Channel { username } => (username, string_of("channel")),
    };
    let name = match dialog.name {
        Some(n) => n,
        None => String::new(),
    };
    let last_message = match dialog.last_message {
        None => None,
        Some(m) => Some(message_dto(m)),
    };
    let unread_count = match dialog.unread_count {
        Some(n) => n,
        None => 0,
    };
    DialogDto { id: dialog.id, name, username, kind, last_message, unread_count }
}

/// The messages of `s` that are present, in order.
pub open spec fn present<T>(s: Seq<Option<T>>) -> Seq<T>
    decreases s.len(),
{
    if s.len() == 0 {
        Seq::empty()
    } else {
        match s.last() {
            Some(x) => present(s.drop_last()).push(x),
            None => present(s.drop_last()),
        }
    }
}

/// Describes the messages that a forward produced, skipping the ones Telegram did not return.
pub fn forwarded_dtos(found: Vec<Option<MessageInfo>>) -> (res: Vec<MessageDto>)
    ensures
        res.len() == present(found@).len(),
        forall|i: int|
            0 <= i < res.len() ==> message_dto_of(#[trigger] present(found@)[i], res@[i]),
{
    let ghost all = found@;
    let mut out: Vec<MessageDto> = Vec::new();
    for item in it: found.into_iter()
        invariant
            it.seq() == all,
            out.len() == present(all.take(it.index() as int)).len(),
            forall|i: int|
                0 <= i < out.len() ==> message_dto_of(
                    #[trigger] present(all.take(it.index() as int))[i],
                    out@[i],
                ),
    {
        let ghost k = it.index() as int;
        assert(all.take(k + 1).drop_last() =~= all.take(k));
        assert(all.take(k + 1).last() == all[k]);
        match item {
            Some(m) => {
                out.push(message_dto(m));
            },
            None => {},
        }
    }
    assert(all.take(all.len() as int) =~= all);
    out
}

/// A converted message keeps every field of the Telegram message: the same id, chat, text,
/// direction (sent by the account or received), date, reply, reaction count, and whether
/// it was edited or carries media.
pub proof fn lemma_message_fields_kept(m: MessageInfo, d: MessageDto)
    requires
        message_dto_of(m, d),
    ensures
        d.id == m.id,
        d.peer_id == m.peer_id,
        d.text == m.text,
        d.outgoing == m.outgoing,
        d.date == Some(m.date),
        d.reply_to == m.reply_to,
        d.edited == (m.edit_date is Some),
        d.reaction_count == m.reaction_count,
        (d.media is None) == (m.media is None),
        m.outgoing ==> d.outgoing,
        !m.outgoing ==> !d.outgoing,
{
}

/// A converted dialog carries the public username of users and channels, none for groups,
/// and the kind of its peer.
pub proof fn lemma_dialog_username_kept(dialog: DialogInfo, d: DialogDto)
    requires
        dialog_dto_of(dialog, d),
    ensures
        d.id == dialog.id,
        dialog.peer matches PeerInfo::User { username } ==> d.username == username
            && d.kind@ == "user"@,
        dialog.peer matches PeerInfo::Channel { username } ==> d.username == username
            && d.kind@ == "channel"@,
        dialog.peer is Group ==> d.username is None && d.kind@ == "group"@,
        dialog.unread_count matches Some(n) ==> d.unread_count == n,
{
}

/// The description of a document or sticker carries its MIME type, and its name unless the
/// name is empty; no media description carries a size.
pub proof fn lemma_file_media_kept(m: MediaInfo, d: MediaDto)
    requires
        media_dto_of(m, d),
    ensures
        d.size is None,
        m matches MediaInfo::Document { name, mime } ==> d.mime == mime && d.kind@
            == "document"@ && (name@.len() > 0 ==> d.filename == Some(name)) && (name@.len()
            == 0 ==> d.filename is None),
        m matches MediaInfo::Sticker { name, mime } ==> d.mime == mime && d.kind@ == "sticker"@
            && (name@.len() > 0 ==> d.filename == Some(name)) && (name@.len() == 0
            ==> d.filename is None),
{
}

} // verus!
