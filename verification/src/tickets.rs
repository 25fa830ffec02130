//! One-time WebSocket tickets.
//!
//! A client that holds the long-lived token asks for a ticket; the ticket then opens the
//! event stream once, and only before it expires.
use vstd::prelude::*;
use crate::text::string_of;

verus! {

/// How long an issued ticket stays valid, in milliseconds.
pub const TICKET_TTL_MS: u64 = 60_000;

/// Whether `c` is a lowercase hexadecimal digit.
pub open spec fn is_lower_hex(c: char) -> bool {
    ('0' <= c <= '9') || ('a' <= c <= 'f')
}

/// The shape of a hyphenated lowercase version-4 UUID: 8-4-4-4-12 hexadecimal digits, the
/// version digit `4` at index 14 and the RFC 4122 variant digit (`8`, `9`, `a` or `b`) at
/// index 19.
pub open spec fn uuid_shaped(s: Seq<char>) -> bool {
    &&& s.len() == 36
    &&& forall|i: int|
        0 <= i < 36 ==> if i == 8 || i == 13 || i == 18 || i == 23 {
            #[trigger] s[i] == '-'
        } else {
            is_lower_hex(s[i])
        }
    &&& s[14] == '4'
    &&& (s[19] == '8' || s[19] == '9' || s[19] == 'a' || s[19] == 'b')
}

/// A fresh random ticket: `uuid::Uuid::new_v4()` in its hyphenated lowercase form.
///
/// The value is random; the contract states only its shape, which every outcome has:
/// `new_v4` masks the random bits so that the version nibble is `4` and the variant bits
/// are `10`, and `Uuid`'s `Display` writes the value lowercase and hyphenated. `new_v4` panics if the operating system
/// has no random bytes to give; nothing here states that.
#[verifier::external_body]
fn new_ticket_id() -> (res: String)
    ensures
        uuid_shaped(res@),
{
    uuid::Uuid::new_v4().to_string()
}

/// The expiry recorded for `key` in `entries`; a later entry hides an earlier one.
pub open spec fn lookup(entries: Seq<(String, u64)>, key: Seq<char>) -> Option<u64>
    decreases entries.len(),
{
    if entries.len() == 0 {
        None
    } else if entries.last().0@ == key {
        Some(entries.last().1)
    } else {
        lookup(entries.drop_last(), key)
    }
}

/// Whether a store that maps tickets to expiry times admits `ticket` at time `now`.
pub open spec fn admits(tickets: Map<Seq<char>, u64>, ticket: Seq<char>, now: u64) -> bool {
    tickets.contains_key(ticket) && tickets[ticket] > now
}

/// The pending tickets, each with the time (in milliseconds) at which it expires.
pub struct TicketStore {
    entries: Vec<(String, u64)>,
}

impl View for TicketStore {
    type V = Map<Seq<char>, u64>;

    closed spec fn view(&self) -> Map<Seq<char>, u64> {
        Map::new(
            |k: Seq<char>| lookup(self.entries@, k) is Some,
            |k: Seq<char>| lookup(self.entries@, k)->0,
        )
    }
}

proof fn lemma_lookup_take(e: Seq<(String, u64)>, i: int, k: Seq<char>)
    requires
        0 <= i < e.len(),
    ensures
        lookup(e.take(i + 1), k) == if e[i].0@ == k {
            Some(e[i].1)
        } else {
            lookup(e.take(i), k)
        },
{
    assert(e.take(i + 1).drop_last() =~= e.take(i));
}

impl TicketStore {
    /// A store that holds no ticket.
    pub fn new() -> (res: Self)
        ensures
            res@ == Map::<Seq<char>, u64>::empty(),
    {
        let res = TicketStore { entries: Vec::new() };
        assert(res@ =~= Map::<Seq<char>, u64>::empty());
        res
    }

    /// Records `ticket` as valid until `expires_at`, replacing any earlier record of it.
    pub fn insert(&mut self, ticket: String, expires_at: u64)
        ensures
            final(self)@ == old(self)@.insert(ticket@, expires_at),
    {
        let ghost old_entries = self.entries@;
        let ghost key = ticket@;
        self.entries.push((ticket, expires_at));
        proof {
            assert(self.entries@.drop_last() =~= old_entries);
            assert forall|k: Seq<char>| lookup(self.entries@, k) == if k == key {
                Some(expires_at)
            } else {
                lookup(old_entries, k)
            } by {}
        }
        assert(self@ =~= old(self)@.insert(key, expires_at));
    }

    /// Issues a fresh ticket at time `now`, valid for `TICKET_TTL_MS` milliseconds.
    pub fn issue(&mut self, now: u64) -> (ticket: String)
        requires
            now <= u64::MAX - TICKET_TTL_MS,
        ensures
            uuid_shaped(ticket@),
            final(self)@ == old(self)@.insert(ticket@, (now + TICKET_TTL_MS) as u64),
    {
        let ticket = new_ticket_id();
        self.insert(ticket.clone(), now + TICKET_TTL_MS);
        ticket
    }

    /// Redeems `ticket` at time `now`: the ticket is removed whatever the outcome, and the
    /// answer is whether it was pending and had not expired.
    pub fn redeem(&mut self, ticket: &str, now: u64) -> (accepted: bool)
        ensures
            accepted == admits(old(self)@, ticket@, now),
            final(self)@ == old(self)@.remove(ticket@),
    {
        let key = string_of(ticket);
        let ghost e = self.entries@;
        let mut kept: Vec<(String, u64)> = Vec::new();
        let mut found: Option<u64> = None;
        let mut i: usize = 0;
        assert(e.take(0) =~= Seq::<(String, u64)>::empty());
        while i < self.entries.len()
            invariant
                e == self.entries@,
                i <= e.len(),
                found == lookup(e.take(i as int), key@),
                forall|k: Seq<char>|
                    #[trigger] lookup(kept@, k) == if k == key@ {
                        None
                    } else {
                        lookup(e.take(i as int), k)
                    },
            decreases e.len() - i,
        {
            let same = self.entries[i].0 == key;
            proof {
                assert forall|k: Seq<char>| #[trigger] lookup(e.take(i + 1), k) == if e[i as int].0@
                    == k {
                    Some(e[i as int].1)
                } else {
                    lookup(e.take(i as int), k)
                } by {
                    lemma_lookup_take(e, i as int, k);
                }
            }
            if same {
                found = Some(self.entries[i].1);
            } else {
                let ghost before = kept@;
                let name = self.entries[i].0.clone();
                kept.push((name, self.entries[i].1));
                proof {
                    assert(kept@.drop_last() =~= before);
                    assert(kept@.last().0@ == e[i as int].0@);
                    assert(kept@.last().1 == e[i as int].1);
                    assert(e[i as int].0@ != key@);
                    assert forall|k: Seq<char>| #[trigger] lookup(kept@, k) == if k == key@ {
                        None
                    } else {
                        lookup(e.take(i + 1), k)
                    } by {
                        assert(lookup(before, k) == if k == key@ {
                            None
                        } else {
                            lookup(e.take(i as int), k)
                        });
                        assert(lookup(e.take(i + 1), k) == if e[i as int].0@ == k {
                            Some(e[i as int].1)
                        } else {
                            lookup(e.take(i as int), k)
                        });
                    }
                }
            }
            i += 1;
        }
        assert(e.take(e.len() as int) =~= e);
        self.entries = kept;
        assert(self@ =~= old(self)@.remove(ticket@));
        match found {
            Some(expires_at) => expires_at > now,
            None => false,
        }
    }
}

/// A ticket opens the event stream at most once: once redeemed, it is never admitted again.
pub proof fn lemma_ticket_single_use(tickets: Map<Seq<char>, u64>, ticket: Seq<char>, later: u64)
    ensures
        !admits(tickets.remove(ticket), ticket, later),
{
}

/// A ticket issued at `now` is admitted at any time before `now + TICKET_TTL_MS`.
pub proof fn lemma_fresh_ticket_admitted(
    tickets: Map<Seq<char>, u64>,
    ticket: Seq<char>,
    now: u64,
    later: u64,
)
    requires
        now <= u64::MAX - TICKET_TTL_MS,
        later < now + TICKET_TTL_MS,
    ensures
        admits(tickets.insert(ticket, (now + TICKET_TTL_MS) as u64), ticket, later),
{
}

/// A ticket issued at `now` is refused from `now + TICKET_TTL_MS` on.
pub proof fn lemma_expired_ticket_refused(
    tickets: Map<Seq<char>, u64>,
    ticket: Seq<char>,
    now: u64,
    later: u64,
)
    requires
        now <= u64::MAX - TICKET_TTL_MS,
        later >= now + TICKET_TTL_MS,
    ensures
        !admits(tickets.insert(ticket, (now + TICKET_TTL_MS) as u64), ticket, later),
{
}

/// Redeeming one ticket leaves every other pending ticket as it was.
pub proof fn lemma_redeem_keeps_others(
    tickets: Map<Seq<char>, u64>,
    ticket: Seq<char>,
    other: Seq<char>,
    now: u64,
)
    requires
        other != ticket,
    ensures
        admits(tickets.remove(ticket), other, now) == admits(tickets, other, now),
{
}

} // verus!
