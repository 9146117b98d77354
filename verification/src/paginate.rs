//! The pagination engine: a pull-driven cursor that turns one paginated
//! endpoint into a single ordered item sequence, fetching a page only
//! when every item of the previous page has been handed out.
//!
//! The cursor never performs I/O itself: [`Cursor::step`] either yields
//! an item, asks for one page by URL, or ends the stream, and the host
//! answers a page request through [`Cursor::supply`]. [`collect`] drives
//! a whole traversal against a list of pre-fetched replies and is the
//! reference semantics of the engine.
use vstd::prelude::*;
use vstd::seq_lib::*;

use crate::error::{classify_fault, spec_classify_fault, Error, ErrorSpec};

verus! {

/// A link to one page, as the pagination metadata carries it.
#[derive(Debug, Clone)]
pub struct PageLink {
    pub href: String,
}

/// Pagination metadata of one page envelope. The `next` link is absent
/// exactly on the terminal page.
#[derive(Debug, Clone)]
pub struct Pagination {
    pub count: usize,
    pub first: PageLink,
    pub next: Option<PageLink>,
}

/// One deserialized response page: the items in server (newest-first)
/// wire order, plus the pagination metadata.
#[derive(Debug, Clone)]
pub struct Envelope<T> {
    pub items: Vec<T>,
    pub pagination: Pagination,
}

/// The `next` link of a page, as a sequence, if present.
pub open spec fn next_link<T>(page: Envelope<T>) -> Option<Seq<char>> {
    match page.pagination.next {
        Some(l) => Some(l.href@),
        None => None,
    }
}

/// What one pull on the stream produces.
#[derive(Debug)]
pub enum Step<T> {
    /// The next item, oldest-first within its page.
    Item(T),
    /// No buffered item is left: the page at this URL must be fetched
    /// and supplied before the stream can continue.
    Fetch(String),
    /// The stream is exhausted: no buffered item and no next link.
    End,
}

/// The outcome of one page fetch, as the host reports it back.
#[derive(Debug)]
pub enum FetchReply<T> {
    /// The page was fetched and decoded.
    Page(Envelope<T>),
    /// The server answered with a non-success status and these body
    /// bytes.
    Fault { status: u16, body: Vec<u8> },
    /// The dispatch itself failed before any response arrived.
    TransportFailed,
    /// A success response arrived but its body did not decode into a
    /// page envelope.
    DecodeFailed,
    /// A local I/O failure unrelated to the network call itself.
    IoFailed,
}

/// How a finished traversal ended.
#[derive(Debug)]
pub enum StreamEnd {
    /// The terminal page was drained: a clean, error-free end.
    Exhausted,
    /// A fetch failed and the stream stopped with this error; items
    /// yielded before it remain valid.
    Faulted(Error),
    /// The traversal needed another page but the caller supplied no
    /// further reply.
    Unfinished,
}

/// Mathematical model of a [`StreamEnd`].
pub enum StreamEndSpec {
    Exhausted,
    Faulted(ErrorSpec),
    Unfinished,
}

impl View for StreamEnd {
    type V = StreamEndSpec;

    open spec fn view(&self) -> StreamEndSpec {
        match self {
            StreamEnd::Exhausted => StreamEndSpec::Exhausted,
            StreamEnd::Faulted(e) => StreamEndSpec::Faulted(e@),
            StreamEnd::Unfinished => StreamEndSpec::Unfinished,
        }
    }
}

/// A whole finished traversal: every item yielded in order, how the
/// stream ended, and how many page fetches were consumed.
#[derive(Debug)]
pub struct Traversal<T> {
    pub items: Vec<T>,
    pub end: StreamEnd,
    pub fetches: usize,
}

/// The model of continuing a traversal from a cursor state: `items` is
/// the buffered remainder (already oldest-first), `next` the pending
/// next link, `replies` the outcomes of the remaining fetches in order.
/// Yields the items still to come, the way the stream ends, and the
/// number of further fetches consumed.
pub open spec fn remainder_spec<T>(
    items: Seq<T>,
    next: Option<Seq<char>>,
    replies: Seq<FetchReply<T>>,
) -> (Seq<T>, StreamEndSpec, nat)
    decreases replies.len(),
{
    match next {
        None => (items, StreamEndSpec::Exhausted, 0 as nat),
        Some(_) => {
            if replies.len() == 0 {
                (items, StreamEndSpec::Unfinished, 0 as nat)
            } else {
                match replies[0] {
                    FetchReply::Page(p) => {
                        let sub = remainder_spec(
                            p.items@.reverse(),
                            next_link(p),
                            replies.drop_first(),
                        );
                        (items + sub.0, sub.1, (1 + sub.2) as nat)
                    },
                    FetchReply::Fault { status, body } => (
                        items,
                        StreamEndSpec::Faulted(spec_classify_fault(status, body@)),
                        1 as nat,
                    ),
                    FetchReply::TransportFailed => (
                        items,
                        StreamEndSpec::Faulted(ErrorSpec::Transport),
                        1 as nat,
                    ),
                    FetchReply::DecodeFailed => (
                        items,
                        StreamEndSpec::Faulted(ErrorSpec::Codec),
                        1 as nat,
                    ),
                    FetchReply::IoFailed => (
                        items,
                        StreamEndSpec::Faulted(ErrorSpec::IO),
                        1 as nat,
                    ),
                }
            }
        },
    }
}

/// The model of a whole traversal whose first fetch produced `first`
/// and whose later fetches produce `rest` in order.
pub open spec fn traversal_spec<T>(first: FetchReply<T>, rest: Seq<FetchReply<T>>) -> (
    Seq<T>,
    StreamEndSpec,
    nat,
) {
    match first {
        FetchReply::Page(p) => {
            let sub = remainder_spec(p.items@.reverse(), next_link(p), rest);
            (sub.0, sub.1, (1 + sub.2) as nat)
        },
        FetchReply::Fault { status, body } => (
            Seq::empty(),
            StreamEndSpec::Faulted(spec_classify_fault(status, body@)),
            1 as nat,
        ),
        FetchReply::TransportFailed => (
            Seq::empty(),
            StreamEndSpec::Faulted(ErrorSpec::Transport),
            1 as nat,
        ),
        FetchReply::DecodeFailed => (Seq::empty(), StreamEndSpec::Faulted(ErrorSpec::Codec), 1 as nat),
        FetchReply::IoFailed => (Seq::empty(), StreamEndSpec::Faulted(ErrorSpec::IO), 1 as nat),
    }
}

/// The buffered items a remainder yields come first, before whatever
/// the later replies contribute; the end and the fetch count do not
/// depend on the buffered items at all.
proof fn lemma_remainder_shift<T>(
    items: Seq<T>,
    next: Option<Seq<char>>,
    replies: Seq<FetchReply<T>>,
)
    ensures
        remainder_spec(items, next, replies).0 =~= items + remainder_spec(
            Seq::<T>::empty(),
            next,
            replies,
        ).0,
        remainder_spec(items, next, replies).1 == remainder_spec(Seq::<T>::empty(), next, replies).1,
        remainder_spec(items, next, replies).2 == remainder_spec(Seq::<T>::empty(), next, replies).2,
{
}

/// Reverse a vector: the once-per-page reversal that turns a
/// newest-first wire page into the oldest-first order the stream yields.
pub fn reverse_vec<T>(v: Vec<T>) -> (r: Vec<T>)
    ensures
        r@ == v@.reverse(),
{
    let ghost v0 = v@;
    let mut v = v;
    let mut r: Vec<T> = Vec::new();
    while v.len() > 0
        invariant
            v@.len() <= v0.len(),
            v@ =~= v0.take(v@.len() as int),
            r@ =~= v0.subrange(v@.len() as int, v0.len() as int).reverse(),
        decreases v.len(),
    {
        let ghost k = v@.len() as int;
        let x = v.pop().unwrap();
        r.push(x);
        proof {
            assert(v@ =~= v0.take(k - 1));
            assert(r@ =~= v0.subrange(k - 1, v0.len() as int).reverse());
        }
    }
    proof {
        assert(r@ =~= v0.reverse());
    }
    r
}

/// The mutable position inside one paginated traversal: the unconsumed
/// remainder of the current page, already reversed to oldest-first, and
/// the next-page link carried over from its envelope.
#[derive(Debug)]
pub struct Cursor<T> {
    items: Vec<T>,
    next: Option<String>,
}

impl<T> Cursor<T> {
    /// The buffered remainder, oldest-first.
    pub closed spec fn items_view(&self) -> Seq<T> {
        self.items@
    }

    /// The pending next-page link.
    pub closed spec fn next_view(&self) -> Option<Seq<char>> {
        match self.next {
            Some(h) => Some(h@),
            None => None,
        }
    }

    /// Start a traversal from its fetched first page: the page's items
    /// are reversed once and queued, the next link is carried over.
    pub fn begin(page: Envelope<T>) -> (c: Cursor<T>)
        ensures
            c.items_view() == page.items@.reverse(),
            c.next_view() == next_link(page),
    {
        let Envelope { items, pagination } = page;
        let reversed = reverse_vec(items);
        let next = match pagination.next {
            Some(l) => Some(l.href),
            None => None,
        };
        Cursor { items: reversed, next }
    }

    /// Pull once on the stream: yield the next buffered item with no
    /// I/O, or ask for the pending page when the buffer is drained, or
    /// end the stream when no next link is left. A page is never asked
    /// for while a buffered item remains.
    pub fn step(&mut self) -> (s: Step<T>)
        ensures
            match s {
                Step::Item(x) => old(self).items_view().len() > 0 && x == old(
                    self,
                ).items_view()[0] && final(self).items_view() == old(
                    self,
                ).items_view().drop_first() && final(self).next_view() == old(self).next_view(),
                Step::Fetch(href) => old(self).items_view().len() == 0 && old(self).next_view()
                    == Some(href@) && *final(self) == *old(self),
                Step::End => old(self).items_view().len() == 0 && old(self).next_view() is None
                    && *final(self) == *old(self),
            },
    {
        if self.items.len() > 0 {
            let x = self.items.remove(0);
            Step::Item(x)
        } else {
            match &self.next {
                Some(h) => Step::Fetch(h.clone()),
                None => Step::End,
            }
        }
    }

    /// Answer the page request of the last [`Cursor::step`]: the new
    /// page's items are reversed once and replace the (drained) buffer,
    /// its next link replaces the consumed one.
    pub fn supply(&mut self, page: Envelope<T>)
        requires
            old(self).items_view().len() == 0,
            old(self).next_view() is Some,
        ensures
            final(self).items_view() == page.items@.reverse(),
            final(self).next_view() == next_link(page),
    {
        *self = Cursor::begin(page);
    }
}

/// Drive one whole traversal with the cursor, against replies fetched
/// for it in order: `first` answers the initial page fetch, `rest[i]`
/// the i-th following page request. Yields every item in order, the way
/// the stream ended, and the exact number of fetches consumed.
///
/// The outcome is a function of the replies alone: nothing is cached or
/// shared between traversals, so a fresh traversal over the same
/// backing replies yields the same sequence again.
#[verifier::loop_isolation(false)]
pub fn collect<T>(first: FetchReply<T>, rest: Vec<FetchReply<T>>) -> (t: Traversal<T>)
    requires
        rest@.len() < usize::MAX,
    ensures
        t.items@ == traversal_spec(first, rest@).0,
        t.end@ == traversal_spec(first, rest@).1,
        t.fetches == traversal_spec(first, rest@).2,
{
    let ghost rest0 = rest@;
    let mut rest = rest;
    let page = match first {
        FetchReply::Page(p) => p,
        FetchReply::Fault { status, body } => {
            return Traversal {
                items: Vec::new(),
                end: StreamEnd::Faulted(classify_fault(status, &body)),
                fetches: 1,
            };
        },
        FetchReply::TransportFailed => {
            return Traversal {
                items: Vec::new(),
                end: StreamEnd::Faulted(Error::Transport),
                fetches: 1,
            };
        },
        FetchReply::DecodeFailed => {
            return Traversal {
                items: Vec::new(),
                end: StreamEnd::Faulted(Error::Codec),
                fetches: 1,
            };
        },
        FetchReply::IoFailed => {
            return Traversal {
                items: Vec::new(),
                end: StreamEnd::Faulted(Error::IO),
                fetches: 1,
            };
        },
    };
    let mut cursor = Cursor::begin(page);
    let mut items: Vec<T> = Vec::new();
    let mut fetches: usize = 1;
    loop
        invariant
            rest@.len() <= rest0.len() < usize::MAX,
            fetches == 1 + rest0.len() - rest@.len(),
            traversal_spec(first, rest0).0 =~= items@ + remainder_spec(
                cursor.items_view(),
                cursor.next_view(),
                rest@,
            ).0,
            traversal_spec(first, rest0).1 == remainder_spec(
                cursor.items_view(),
                cursor.next_view(),
                rest@,
            ).1,
            traversal_spec(first, rest0).2 == fetches + remainder_spec(
                cursor.items_view(),
                cursor.next_view(),
                rest@,
            ).2,
        decreases rest@.len(), cursor.items_view().len(),
    {
        let ghost iv = cursor.items_view();
        let ghost nv = cursor.next_view();
        let ghost r = rest@;
        match cursor.step() {
            Step::Item(x) => {
                items.push(x);
                proof {
                    lemma_remainder_shift(iv, nv, r);
                    lemma_remainder_shift(iv.drop_first(), nv, r);
                    assert(items@ + remainder_spec(cursor.items_view(), nv, r).0 =~= items@
                        + (iv.drop_first() + remainder_spec(Seq::<T>::empty(), nv, r).0));
                    assert(items@ + (iv.drop_first() + remainder_spec(Seq::<T>::empty(), nv, r).0)
                        =~= traversal_spec(first, rest0).0);
                }
            },
            Step::Fetch(_href) => {
                if rest.len() == 0 {
                    proof {
                        assert(remainder_spec(iv, nv, r).0 =~= iv);
                        assert(items@ + iv =~= items@);
                    }
                    return Traversal { items, end: StreamEnd::Unfinished, fetches };
                }
                let reply = rest.remove(0);
                fetches = fetches + 1;
                proof {
                    assert(reply == r[0]);
                    assert(rest@ =~= r.drop_first());
                }
                match reply {
                    FetchReply::Page(p) => {
                        cursor.supply(p);
                        proof {
                            assert(items@ + remainder_spec(
                                cursor.items_view(),
                                cursor.next_view(),
                                rest@,
                            ).0 =~= items@ + (iv + remainder_spec(
                                cursor.items_view(),
                                cursor.next_view(),
                                rest@,
                            ).0));
                            assert(items@ + (iv + remainder_spec(
                                cursor.items_view(),
                                cursor.next_view(),
                                rest@,
                            ).0) =~= traversal_spec(first, rest0).0);
                        }
                    },
                    FetchReply::Fault { status, body } => {
                        proof {
                            assert(items@ + iv =~= items@);
                        }
                        return Traversal {
                            items,
                            end: StreamEnd::Faulted(classify_fault(status, &body)),
                            fetches,
                        };
                    },
                    FetchReply::TransportFailed => {
                        proof {
                            assert(items@ + iv =~= items@);
                        }
                        return Traversal {
                            items,
                            end: StreamEnd::Faulted(Error::Transport),
                            fetches,
                        };
                    },
                    FetchReply::DecodeFailed => {
                        proof {
                            assert(items@ + iv =~= items@);
                        }
                        return Traversal {
                            items,
                            end: StreamEnd::Faulted(Error::Codec),
                            fetches,
                        };
                    },
                    FetchReply::IoFailed => {
                        proof {
                            assert(items@ + iv =~= items@);
                        }
                        return Traversal {
                            items,
                            end: StreamEnd::Faulted(Error::IO),
                            fetches,
                        };
                    },
                }
            },
            Step::End => {
                proof {
                    assert(remainder_spec(iv, nv, r).0 =~= iv);
                    assert(items@ + iv =~= items@);
                }
                return Traversal { items, end: StreamEnd::Exhausted, fetches };
            },
        }
    }
}

/// The single-fetch interpretation behind the list endpoints: the
/// page's items in wire order on success, the uniform classification of
/// the reply on failure.
pub fn list_outcome<T>(reply: FetchReply<T>) -> (r: Result<Vec<T>, Error>)
    ensures
        match reply {
            FetchReply::Page(p) => r matches Ok(v) && v@ == p.items@,
            FetchReply::Fault { status, body } => r matches Err(e) && e@ == spec_classify_fault(
                status,
                body@,
            ),
            FetchReply::TransportFailed => r matches Err(e) && e@ == ErrorSpec::Transport,
            FetchReply::DecodeFailed => r matches Err(e) && e@ == ErrorSpec::Codec,
            FetchReply::IoFailed => r matches Err(e) && e@ == ErrorSpec::IO,
        },
{
    match reply {
        FetchReply::Page(p) => Ok(p.items),
        FetchReply::Fault { status, body } => Err(classify_fault(status, &body)),
        FetchReply::TransportFailed => Err(Error::Transport),
        FetchReply::DecodeFailed => Err(Error::Codec),
        FetchReply::IoFailed => Err(Error::IO),
    }
}

/// Single-page termination: a first page with no next link yields
/// exactly that page's items, reversed from wire order, and terminates
/// cleanly after the one fetch that produced it — whatever further
/// replies the backing store could offer, since no look-ahead fetch is
/// ever issued.
pub proof fn lemma_single_page_termination<T>(page: Envelope<T>, replies: Seq<FetchReply<T>>)
    requires
        page.pagination.next is None,
    ensures
        traversal_spec(FetchReply::Page(page), replies).0 == page.items@.reverse(),
        traversal_spec(FetchReply::Page(page), replies).1 == StreamEndSpec::Exhausted,
        traversal_spec(FetchReply::Page(page), replies).2 == 1,
{
}

/// Re-traversal agreement: the traversal model is a function of the
/// fetched replies alone, so two traversals driven over the same
/// backing replies yield the same items in the same order and end the
/// same way. No cursor state is shared between traversals.
pub proof fn lemma_retraversal_agreement<T>(
    first: FetchReply<T>,
    rest: Seq<FetchReply<T>>,
    a: (Seq<T>, StreamEndSpec, nat),
    b: (Seq<T>, StreamEndSpec, nat),
)
    requires
        a == traversal_spec(first, rest),
        b == traversal_spec(first, rest),
    ensures
        a == b,
{
}

/// Whether consecutive pages are linked: every page but the last
/// carries a next link, the last carries none.
pub open spec fn well_linked<T>(pages: Seq<Envelope<T>>) -> bool {
    &&& pages.len() > 0
    &&& forall|i: int|
        0 <= i < pages.len() - 1 ==> (#[trigger] pages[i].pagination.next) is Some
    &&& pages.last().pagination.next is None
}

/// The items a linked page list stitches together: every page's items,
/// reversed to oldest-first, page after page.
pub open spec fn stitched<T>(pages: Seq<Envelope<T>>) -> Seq<T>
    decreases pages.len(),
{
    if pages.len() == 0 {
        Seq::empty()
    } else {
        pages[0].items@.reverse() + stitched(pages.drop_first())
    }
}

/// The pages as successful fetch replies, in order.
pub open spec fn as_pages<T>(pages: Seq<Envelope<T>>) -> Seq<FetchReply<T>> {
    pages.map_values(|p: Envelope<T>| FetchReply::Page(p))
}

/// Page stitching: over a properly linked page list, the traversal
/// yields exactly the concatenation of every page's reversed items in
/// page order, consumes exactly one fetch per page, and terminates
/// cleanly with no error.
pub proof fn lemma_page_stitching<T>(pages: Seq<Envelope<T>>)
    requires
        well_linked(pages),
    ensures
        traversal_spec(FetchReply::Page(pages[0]), as_pages(pages.drop_first())).0 == stitched(
            pages,
        ),
        traversal_spec(FetchReply::Page(pages[0]), as_pages(pages.drop_first())).1
            == StreamEndSpec::Exhausted,
        traversal_spec(FetchReply::Page(pages[0]), as_pages(pages.drop_first())).2 == pages.len(),
    decreases pages.len(),
{
    if pages.len() == 1 {
        lemma_single_page_termination(pages[0], as_pages(pages.drop_first()));
        assert(stitched(pages.drop_first()) =~= Seq::<T>::empty());
        assert(stitched(pages) =~= pages[0].items@.reverse());
    } else {
        let tail = pages.drop_first();
        assert(well_linked(tail)) by {
            assert(forall|i: int|
                0 <= i < tail.len() - 1 ==> (#[trigger] tail[i].pagination.next) is Some);
        }
        lemma_page_stitching(tail);
        assert(as_pages(tail)[0] == FetchReply::Page(pages[1]));
        assert(as_pages(tail).drop_first() =~= as_pages(tail.drop_first()));
        lemma_remainder_shift(
            pages[0].items@.reverse(),
            next_link(pages[0]),
            as_pages(tail),
        );
        assert(traversal_spec(FetchReply::Page(pages[0]), as_pages(tail)).0 =~= stitched(pages));
    }
}

} // verus!
