use telemesh::convert::{dialog_dto, forwarded_dtos, media_dto, message_dto, DialogInfo, MediaInfo, MessageInfo, PeerInfo};
use telemesh::paging::{history_page, page_take, search_page, Batch, DEFAULT_PAGE_LIMIT, DIALOG_LIMIT, MAX_PAGE};
use telemesh::protocol::{Event, MediaDto, MessageDto, ReactRequest};
use telemesh::retry::{backoff_ms, transfer_retry, TRANSFER_DELAY_CAP_MS, UPDATE_DELAY_CAP_MS};
use telemesh::updates::{marked_peer_id, update_in_range, RawPeer, UpdateFeed, UpdateInfo};

fn info(id: i32) -> MessageInfo {
    MessageInfo {
        id,
        peer_id: 77,
        text: format!("m{}", id),
        outgoing: id % 2 == 0,
        date: 1_700_000_000 + id as i64,
        reply_to: None,
        edit_date: None,
        reaction_count: 0,
        media: None,
    }
}

fn plain(kind: &str, mime: Option<&str>) -> MediaDto {
    MediaDto { kind: kind.to_string(), filename: None, mime: mime.map(str::to_string), size: None }
}

#[test]
fn media_kinds() {
    let doc = media_dto(MediaInfo::Document { name: "a.pdf".into(), mime: Some("application/pdf".into()) });
    assert_eq!(doc, MediaDto { kind: "document".into(), filename: Some("a.pdf".into()), mime: Some("application/pdf".into()), size: None });
    let unnamed = media_dto(MediaInfo::Document { name: String::new(), mime: None });
    assert_eq!(unnamed, plain("document", None));
    let sticker = media_dto(MediaInfo::Sticker { name: "s.webp".into(), mime: Some("image/webp".into()) });
    assert_eq!(sticker.kind, "sticker");
    assert_eq!(sticker.filename.as_deref(), Some("s.webp"));
    assert_eq!(media_dto(MediaInfo::Photo), plain("photo", Some("image/jpeg")));
    assert_eq!(media_dto(MediaInfo::Contact), plain("contact", Some("text/vcard")));
    assert_eq!(media_dto(MediaInfo::Poll), plain("poll", None));
    assert_eq!(media_dto(MediaInfo::Geo), plain("geo", None));
    assert_eq!(media_dto(MediaInfo::Dice), plain("dice", None));
    assert_eq!(media_dto(MediaInfo::Venue), plain("venue", None));
    assert_eq!(media_dto(MediaInfo::WebPage), plain("webpage", None));
    assert_eq!(media_dto(MediaInfo::Other), plain("media", None));
}

#[test]
fn message_fields() {
    let mut m = info(5);
    m.reply_to = Some(3);
    m.edit_date = Some(1_700_000_100);
    m.reaction_count = 2;
    m.media = Some(MediaInfo::Photo);
    let d = message_dto(m);
    assert_eq!(d.id, 5);
    assert_eq!(d.peer_id, 77);
    assert_eq!(d.text, "m5");
    assert!(!d.outgoing);
    assert_eq!(d.date, Some(1_700_000_005));
    assert_eq!(d.reply_to, Some(3));
    assert!(d.edited);
    assert_eq!(d.reaction_count, 2);
    assert_eq!(d.media, Some(plain("photo", Some("image/jpeg"))));
    assert!(!message_dto(info(1)).edited);
}

#[test]
fn dialog_fields() {
    let d = dialog_dto(DialogInfo {
        peer: PeerInfo::User { username: Some("alice".into()) },
        id: 10,
        name: Some("Alice".into()),
        last_message: Some(info(4)),
        unread_count: Some(3),
    });
    assert_eq!(d.kind, "user");
    assert_eq!(d.username.as_deref(), Some("alice"));
    assert_eq!(d.name, "Alice");
    assert_eq!(d.unread_count, 3);
    assert_eq!(d.last_message.map(|m| m.id), Some(4));
    let g = dialog_dto(DialogInfo { peer: PeerInfo::Group, id: 11, name: None, last_message: None, unread_count: None });
    assert_eq!((g.kind.as_str(), g.username, g.name.as_str(), g.unread_count), ("group", None, "", 0));
    let c = dialog_dto(DialogInfo { peer: PeerInfo::Channel { username: None }, id: 12, name: Some("News".into()), last_message: None, unread_count: Some(0) });
    assert_eq!(c.kind, "channel");
}

#[test]
fn forwarded_skips_missing() {
    let out = forwarded_dtos(vec![Some(info(1)), None, Some(info(3)), None]);
    assert_eq!(out.iter().map(|m| m.id).collect::<Vec<_>>(), vec![1, 3]);
    assert!(forwarded_dtos(vec![None]).is_empty());
}

#[test]
fn page_sizes() {
    assert_eq!(page_take(0), 1);
    assert_eq!(page_take(50), 50);
    assert_eq!(page_take(100), 100);
    assert_eq!(page_take(101), MAX_PAGE);
    assert_eq!(page_take(usize::MAX), 100);
    assert_eq!(DEFAULT_PAGE_LIMIT, 50);
    assert_eq!(DIALOG_LIMIT, 100);
}

#[test]
fn history_is_oldest_first() {
    let fetched: Vec<MessageDto> = vec![message_dto(info(9)), message_dto(info(8)), message_dto(info(7))];
    let page = history_page(fetched.clone(), 3);
    assert_eq!(page.messages.iter().map(|m| m.id).collect::<Vec<_>>(), vec![7, 8, 9]);
    assert!(page.has_more);
    let page = history_page(fetched, 50);
    assert!(!page.has_more);
    let empty = history_page(Vec::new(), 1);
    assert!(empty.messages.is_empty() && !empty.has_more);
}

#[test]
fn batch_stops_at_limit() {
    let mut b = Batch::new(2);
    let mut source = (1..=5).map(|i| message_dto(info(i)));
    while b.wants_more() {
        match source.next() {
            Some(m) => b.push(m),
            None => break,
        }
    }
    let res = search_page(b);
    assert_eq!(res.messages.iter().map(|m| m.id).collect::<Vec<_>>(), vec![1, 2]);
    let mut short = Batch::new(10);
    short.push(1u8);
    assert_eq!(short.into_vec(), vec![1]);
}

#[test]
fn backoff_values() {
    let update: Vec<u64> = (0..8).map(|f| backoff_ms(f, UPDATE_DELAY_CAP_MS)).collect();
    assert_eq!(update, vec![250, 500, 1000, 2000, 4000, 8000, 8000, 8000]);
    assert_eq!(backoff_ms(u32::MAX, TRANSFER_DELAY_CAP_MS), 8000);
    assert_eq!(backoff_ms(5, 3000), 3000);
    assert_eq!(transfer_retry(1), Some(500));
    assert_eq!(transfer_retry(2), Some(1000));
    assert_eq!(transfer_retry(3), Some(2000));
    assert_eq!(transfer_retry(4), None);
}

#[test]
fn update_feed_events() {
    let mut feed = UpdateFeed::new();
    let e = feed.on_update(UpdateInfo::NewMessage(info(1)));
    assert_eq!(e, Some(Event::NewMessage(message_dto(info(1)))));
    let e = feed.on_update(UpdateInfo::MessageEdited(info(2)));
    assert_eq!(e, Some(Event::MessageEdited(message_dto(info(2)))));
    assert_eq!(feed.on_update(UpdateInfo::MessagesDeleted(vec![])), None);
    assert_eq!(
        feed.on_update(UpdateInfo::MessagesDeleted(vec![4, 5])),
        Some(Event::MessagesDeleted { peer_id: 0, message_ids: vec![4, 5] })
    );
    assert_eq!(
        feed.on_update(UpdateInfo::ReactionsChanged { peer: RawPeer::Channel(123), message_id: 9 }),
        Some(Event::ReactionUpdated { peer_id: -1_000_000_000_123, message_id: 9 })
    );
    assert_eq!(feed.on_update(UpdateInfo::Other), None);
}

#[test]
fn marked_ids() {
    assert_eq!(marked_peer_id(&RawPeer::User(5)), 5);
    assert_eq!(marked_peer_id(&RawPeer::Chat(5)), -5);
    assert_eq!(marked_peer_id(&RawPeer::Channel(5)), -1_000_000_000_005);
}

#[test]
fn stream_errors_back_off_then_reset() {
    let mut feed = UpdateFeed::new();
    let delays: Vec<u64> = (0..7).map(|_| feed.on_stream_error().delay_ms).collect();
    assert_eq!(delays, vec![500, 1000, 2000, 4000, 8000, 8000, 8000]);
    let plan = feed.on_stream_error();
    assert_eq!(plan.announce, Event::Reconnecting);
    assert_eq!(plan.resume, Event::Status { authorized: true });
    feed.on_update(UpdateInfo::Other);
    assert_eq!(feed.on_stream_error().delay_ms, 500);
}

#[test]
fn reaction_choice() {
    let r = |x: Option<&str>| ReactRequest { peer: "p".into(), message_id: 1, reaction: x.map(str::to_string) };
    assert_eq!(r(Some("👍")).reaction_to_send(), Some("👍".to_string()));
    assert_eq!(r(Some(" 👍 ")).reaction_to_send(), Some(" 👍 ".to_string()));
    assert_eq!(r(Some("  ")).reaction_to_send(), None);
    assert_eq!(r(None).reaction_to_send(), None);
}

#[test]
fn reaction_update_range() {
    assert!(update_in_range(&UpdateInfo::ReactionsChanged { peer: RawPeer::Chat(1), message_id: 1 }));
    assert!(!update_in_range(&UpdateInfo::ReactionsChanged { peer: RawPeer::Chat(i64::MIN), message_id: 1 }));
    assert!(!update_in_range(&UpdateInfo::ReactionsChanged { peer: RawPeer::Channel(i64::MAX), message_id: 1 }));
    assert!(update_in_range(&UpdateInfo::ReactionsChanged { peer: RawPeer::User(i64::MIN), message_id: 1 }));
    assert!(update_in_range(&UpdateInfo::Other));
}
