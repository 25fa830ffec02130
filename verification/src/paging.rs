//! How many messages a request may fetch, and how fetched pages are shaped.
use vstd::prelude::*;
use crate::protocol::{MessageDto, MessagesResponse, SearchResponse};

verus! {

/// The most messages that one history or search request returns.
pub const MAX_PAGE: usize = 100;

/// The number of messages a history or search request asks for when it names none.
pub const DEFAULT_PAGE_LIMIT: usize = 50;

/// The number of dialogs the chat list returns.
pub const DIALOG_LIMIT: usize = 100;

/// `limit` held between 1 and `MAX_PAGE`.
pub open spec fn page_size(limit: usize) -> usize {
    if limit < 1 {
        1
    } else if limit > MAX_PAGE {
        MAX_PAGE
    } else {
        limit
    }
}

/// How many messages a history or search request fetches for the `limit` it asked for.
pub fn page_take(limit: usize) -> (res: usize)
    ensures
        res == page_size(limit),
        1 <= res <= MAX_PAGE,
        1 <= limit <= MAX_PAGE ==> res == limit,
        limit < 1 ==> res == 1,
        limit > MAX_PAGE ==> res == MAX_PAGE,
{
    if limit < 1 {
        1
    } else if limit > MAX_PAGE {
        MAX_PAGE
    } else {
        limit
    }
}

/// Items gathered from a source, up to a limit.
pub struct Batch<T> {
    items: Vec<T>,
    limit: usize,
}

impl<T> Batch<T> {
    /// The items gathered so far, in the order they came.
    pub closed spec fn items(&self) -> Seq<T> {
        self.items@
    }

    /// The most items this batch takes.
    pub closed spec fn limit(&self) -> usize {
        self.limit
    }

    /// The batch stays within its limit.
    pub closed spec fn wf(&self) -> bool {
        self.items@.len() <= self.limit
    }

    /// An empty batch that takes at most `limit` items.
    pub fn new(limit: usize) -> (res: Self)
        ensures
            res.wf(),
            res.items() == Seq::<T>::empty(),
            res.limit() == limit,
    {
        Batch { items: Vec::new(), limit }
    }

    /// Whether the batch takes another item.
    pub fn wants_more(&self) -> (res: bool)
        requires
            self.wf(),
        ensures
            res == (self.items().len() < self.limit()),
    {
        self.items.len() < self.limit
    }

    /// Adds the next item.
    pub fn push(&mut self, item: T)
        requires
            old(self).wf(),
            old(self).items().len() < old(self).limit(),
        ensures
            final(self).wf(),
            final(self).items() == old(self).items().push(item),
            final(self).limit() == old(self).limit(),
    {
        self.items.push(item);
    }

    /// The items gathered, in the order they came.
    pub fn into_vec(self) -> (res: Vec<T>)
        requires
            self.wf(),
        ensures
            res@ == self.items(),
            res.len() <= self.limit(),
    {
        self.items
    }
}

/// A page of history from the messages fetched newest first: oldest first, and marked as
/// having more when the page is full.
pub fn history_page(fetched: Vec<MessageDto>, take: usize) -> (res: MessagesResponse)
    ensures
        res.messages@ == fetched@.reverse(),
        res.has_more == (fetched.len() == take),
{
    let ghost all = fetched@;
    let n = fetched.len();
    let has_more = n == take;
    let mut rest = fetched;
    let mut out: Vec<MessageDto> = Vec::new();
    while rest.len() > 0
        invariant
            rest@ == all.take(rest.len() as int),
            out@ == all.skip(rest.len() as int).reverse(),
            rest.len() <= all.len(),
        decreases rest.len(),
    {
        let ghost before = rest@;
        let ghost len = rest.len() as int;
        match rest.pop() {
            Some(m) => {
                assert(m == all[len - 1]);
                out.push(m);
                assert(all.skip(len - 1) =~= seq![all[len - 1]] + all.skip(len));
                assert(all.skip(len - 1).reverse() =~= all.skip(len).reverse().push(all[len - 1]));
                assert(rest@ =~= all.take(len - 1));
            },
            None => {},
        }
    }
    assert(all.skip(0) =~= all);
    MessagesResponse { messages: out, has_more }
}

/// The search answer for the hits gathered.
pub fn search_page(hits: Batch<MessageDto>) -> (res: SearchResponse)
    requires
        hits.wf(),
    ensures
        res.messages@ == hits.items(),
        res.messages.len() <= hits.limit(),
{
    SearchResponse { messages: hits.into_vec() }
}

/// A history page keeps every fetched message and puts the newest (fetched first) last
/// and the oldest (fetched last) first.
pub proof fn lemma_history_newest_last(fetched: Seq<MessageDto>)
    requires
        fetched.len() > 0,
    ensures
        fetched.reverse().len() == fetched.len(),
        fetched.reverse().last() == fetched[0],
        fetched.reverse()[0] == fetched.last(),
{
}

/// The page size is the limit asked for whenever that limit is between 1 and `MAX_PAGE`;
/// a smaller limit gives 1 and a larger one `MAX_PAGE`. So the size never passes the
/// limit asked for (when it is at least 1), and grows with it.
pub proof fn lemma_page_size_is_clamped_limit(limit: usize, other: usize)
    ensures
        1 <= limit <= MAX_PAGE ==> page_size(limit) == limit,
        limit < 1 ==> page_size(limit) == 1,
        limit > MAX_PAGE ==> page_size(limit) == MAX_PAGE,
        limit >= 1 ==> page_size(limit) <= limit,
        limit <= other ==> page_size(limit) <= page_size(other),
{
}

} // verus!
