//! How a request names a chat: a numeric id, or a username with or without `@`.
use vstd::prelude::*;
use crate::numbers::{parse_i64_chars, parse_i64_spec};
use crate::text::{strip_leading, strip_leading_chars, string_of_range, trim, trim_chars, trim_end, trim_start, is_space};

verus! {

/// A chat as a request names it.
#[derive(Debug, Clone, PartialEq, Eq)]
pub enum PeerQuery {
    /// A bare chat id, looked up among the dialogs.
    Id(i64),
    /// A username, resolved through Telegram.
    Username(String),
}

/// The text that names the chat: the request's text without surrounding white space and
/// without leading `@`s.
pub open spec fn peer_text(s: Seq<char>) -> Seq<char> {
    strip_leading(trim(s), '@')
}

/// Reads how a request names a chat: an id when the text parses as an `i64`, else a username.
pub fn parse_peer(peer: &str) -> (res: PeerQuery)
    ensures
        match res {
            PeerQuery::Id(id) => parse_i64_spec(peer_text(peer@)) == Some(id),
            PeerQuery::Username(name) => parse_i64_spec(peer_text(peer@)) is None && name@
                == peer_text(peer@),
        },
{
    let trimmed = trim_chars(peer);
    let value = strip_leading_chars(&trimmed, '@');
    match parse_i64_chars(&value) {
        Some(id) => PeerQuery::Id(id),
        None => {
            let name = string_of_range(&value, 0, value.len());
            assert(value@.subrange(0, value@.len() as int) =~= value@);
            PeerQuery::Username(name)
        },
    }
}

impl PeerQuery {
    /// Whether a dialog with the bare id `bare_id` is the chat this query names by id.
    pub fn matches_dialog(&self, bare_id: i64) -> (res: bool)
        ensures
            res == (self matches PeerQuery::Id(id) && id == bare_id),
    {
        match self {
            PeerQuery::Id(id) => *id == bare_id,
            PeerQuery::Username(_) => false,
        }
    }
}

proof fn lemma_trim_end_after(c: char, s: Seq<char>)
    requires
        !is_space(c),
    ensures
        trim_end(seq![c] + s) == seq![c] + trim_end(s),
    decreases s.len(),
{
    let cs = seq![c] + s;
    if s.len() == 0 {
        assert(cs =~= seq![c]);
        assert(seq![c] + Seq::<char>::empty() =~= seq![c]);
    } else {
        assert(cs.last() == s.last());
        assert(cs.drop_last() =~= seq![c] + s.drop_last());
        if is_space(s.last()) {
            lemma_trim_end_after(c, s.drop_last());
        }
    }
}

/// A leading `@` does not change which chat is named: `@name` names the chat `name` names
/// (for text that does not itself start with white space).
pub proof fn lemma_at_sign_optional(s: Seq<char>)
    requires
        s.len() == 0 || !is_space(s[0]),
    ensures
        peer_text(seq!['@'] + s) == peer_text(s),
{
    let a = seq!['@'] + s;
    assert(a[0] == '@');
    assert(trim_start(a) == a);
    assert(trim_start(s) == s);
    lemma_trim_end_after('@', s);
    let t = trim_end(s);
    assert((seq!['@'] + t)[0] == '@');
    assert((seq!['@'] + t).drop_first() =~= t);
}

/// Surrounding white space does not change which chat is named.
pub proof fn lemma_surrounding_space_ignored(s: Seq<char>)
    ensures
        peer_text(seq![' '] + s + seq![' ']) == peer_text(s),
{
    let a = seq![' '] + s + seq![' '];
    assert(a.drop_first() =~= s + seq![' ']);
    assert(trim_start(a) == trim_start(s + seq![' ']));
    lemma_trim_trailing_space(s);
}

proof fn lemma_trim_trailing_space(x: Seq<char>)
    ensures
        trim_end(trim_start(x + seq![' '])) == trim_end(trim_start(x)),
    decreases x.len(),
{
    let a = x + seq![' '];
    assert(is_space(' '));
    if x.len() == 0 {
        assert(a =~= seq![' ']);
        assert(a.drop_first() =~= Seq::<char>::empty());
        assert(trim_start(a) == trim_start(Seq::<char>::empty()));
    } else {
        assert(a[0] == x[0]);
        assert(a.drop_first() =~= x.drop_first() + seq![' ']);
        if is_space(x[0]) {
            lemma_trim_trailing_space(x.drop_first());
        } else {
            assert(a.last() == ' ');
            assert(a.drop_last() =~= x);
        }
    }
}

} // verus!
