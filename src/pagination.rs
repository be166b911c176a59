//! The paging protocol: a lazy sequence of items over pages linked by
//! "next page" cursors.
//!
//! A `Pager` decides and the caller acts: each `next_step` hands out the
//! next item, or a page request to make, or the end. A request is handed out
//! only once every item fetched so far has been handed out, so fetching
//! follows consumption.

use vstd::prelude::*;
use vstd::string::*;
use crate::error::SmugMugError;
use crate::params::TextPair;
use crate::text::decimal;
use crate::text::decimal_string;
use crate::text::clone_pairs;
use crate::text::pairs_view;
use crate::transport::API_ORIGIN;
use crate::urls::join_url;
use crate::urls::joined_url;

verus! {

/// A page to request: its URL and query parameters.
pub struct PageRequest {
    pub url: String,
    pub params: Vec<(String, String)>,
}

/// A page request as text.
pub type PageRequestView = (Seq<char>, Seq<TextPair>);

/// The view of a page request.
pub open spec fn request_view(r: PageRequest) -> PageRequestView {
    (r.url@, pairs_view(r.params@))
}

/// The parameter that asks for full objects.
pub open spec fn verbosity_pair() -> TextPair {
    ("_verbosity"@, "1"@)
}

/// What comes next in a paged sequence.
pub enum PageStep<T> {
    /// The next item.
    Item(T),
    /// A page to request; hand its items back with `receive_page`.
    Fetch(PageRequest),
    /// The sequence failed and ends.
    Failed(SmugMugError),
    /// The sequence is complete.
    Done,
}

/// The state of a paged sequence.
pub struct PagerView<T> {
    /// Every item received, in order.
    pub fetched: Seq<T>,
    /// Every item handed out, in order.
    pub yielded: Seq<T>,
    /// Items received and not yet handed out.
    pub pending: Seq<T>,
    /// What follows the pending items: a request, a failure, or the end.
    pub next: Option<Result<PageRequestView, SmugMugError>>,
    /// Page requests handed out.
    pub fetches: nat,
    /// Whether a page request is out and its page not yet received.
    pub awaiting: bool,
    /// Items asked for per page.
    pub page_size: nat,
}

impl<T> PagerView<T> {
    /// The invariant of a paged sequence: items come out in the order they
    /// came in; while a request is out nothing is pending; and every page but
    /// the last was full, so the requests beyond the first are paid for by
    /// items already handed out.
    pub open spec fn wf(self) -> bool {
        &&& self.yielded + self.pending == self.fetched
        &&& self.awaiting ==> self.pending.len() == 0 && self.next is None
        &&& (!self.awaiting && self.next is Some && self.next->0 is Ok) ==> self.fetched.len()
            >= self.fetches * self.page_size
        &&& self.awaiting ==> self.fetches >= 1 && self.fetched.len() >= (self.fetches - 1)
            * self.page_size
        &&& self.fetches >= 1 ==> (self.fetches - 1) * self.page_size <= self.yielded.len()
    }
}

/// A lazy sequence of items over pages.
pub struct Pager<T> {
    pending: Vec<T>,
    next: Option<Result<PageRequest, SmugMugError>>,
    awaiting: bool,
    page_size: u64,
    fetched: Ghost<Seq<T>>,
    yielded: Ghost<Seq<T>>,
    fetches: Ghost<nat>,
}

/// The view of what follows the pending items.
pub open spec fn next_view(n: Option<Result<PageRequest, SmugMugError>>) -> Option<
    Result<PageRequestView, SmugMugError>,
> {
    match n {
        Some(Ok(r)) => Some(Ok(request_view(r))),
        Some(Err(e)) => Some(Err(e)),
        None => None,
    }
}

/// The request for the first page: the caller's parameters, the page size as
/// `count`, and full verbosity.
pub open spec fn first_request(
    first_url: Seq<char>,
    base_params: Seq<TextPair>,
    page_size: nat,
) -> Result<PageRequestView, SmugMugError> {
    match joined_url(API_ORIGIN@, first_url) {
        Some(u) => Ok((u, base_params.push(("count"@, decimal(page_size))).push(verbosity_pair()))),
        None => Err(SmugMugError::UrlParsing),
    }
}

/// The request that follows a page: none after a short page or a page
/// without cursor; else the cursor, resolved against the origin, with full
/// verbosity.
pub open spec fn following_request(
    items: nat,
    cursor: Option<Seq<char>>,
    page_size: nat,
) -> Option<Result<PageRequestView, SmugMugError>> {
    match cursor {
        Some(c) => if items < page_size {
            None
        } else {
            match joined_url(API_ORIGIN@, c) {
                Some(u) => Some(Ok((u, seq![verbosity_pair()]))),
                None => Some(Err(SmugMugError::UrlParsing)),
            }
        },
        None => None,
    }
}

impl<T> View for Pager<T> {
    type V = PagerView<T>;

    closed spec fn view(&self) -> PagerView<T> {
        PagerView {
            fetched: self.fetched@,
            yielded: self.yielded@,
            pending: self.pending@,
            next: next_view(self.next),
            fetches: self.fetches@,
            awaiting: self.awaiting,
            page_size: self.page_size as nat,
        }
    }
}

fn verbosity(v: &mut Vec<(String, String)>)
    ensures
        pairs_view(final(v)@) == pairs_view(old(v)@).push(verbosity_pair()),
{
    v.push((String::from_str("_verbosity"), String::from_str("1")));
    assert(pairs_view(final(v)@) =~= pairs_view(old(v)@).push(verbosity_pair()));
}

impl<T> Pager<T> {
    /// A sequence over the pages that start at `first_url`, a path or URL
    /// resolved against the origin; with no first URL the sequence is empty.
    pub fn new(first_url: Option<&str>, base_params: &Vec<(String, String)>, page_size: u64) -> (r:
        Self)
        ensures
            r@.wf(),
            r@.fetched.len() == 0,
            r@.fetches == 0,
            !r@.awaiting,
            r@.page_size == page_size,
            r@.next == match first_url {
                Some(u) => Some(first_request(u@, pairs_view(base_params@), page_size as nat)),
                None => None,
            },
    {
        let next = match first_url {
            Some(u) => match join_url(API_ORIGIN, u) {
                Ok(url) => {
                    let mut params = clone_pairs(base_params);
                    let ghost before = pairs_view(params@);
                    params.push((String::from_str("count"), decimal_string(page_size)));
                    assert(pairs_view(params@) =~= before.push(("count"@, decimal(page_size as nat))));
                    verbosity(&mut params);
                    Some(Ok(PageRequest { url, params }))
                },
                Err(_) => Some(Err(SmugMugError::UrlParsing)),
            },
            None => None,
        };
        Pager {
            pending: Vec::new(),
            next,
            awaiting: false,
            page_size,
            fetched: Ghost(Seq::empty()),
            yielded: Ghost(Seq::empty()),
            fetches: Ghost(0),
        }
    }

    /// Whether a page request is out and its page not yet received.
    pub fn awaiting_page(&self) -> (r: bool)
        ensures
            r == self@.awaiting,
    {
        self.awaiting
    }

    /// What comes next: the next pending item; else the request for the next
    /// page, or the failure, or the end.
    pub fn next_step(&mut self) -> (r: PageStep<T>)
        requires
            old(self)@.wf(),
            !old(self)@.awaiting,
        ensures
            final(self)@.wf(),
            final(self)@.fetched == old(self)@.fetched,
            final(self)@.page_size == old(self)@.page_size,
            old(self)@.pending.len() > 0 ==> (r matches PageStep::Item(x) && x == old(self)@.pending[0]
                && final(self)@.yielded == old(self)@.yielded.push(x)
                && final(self)@.pending == old(self)@.pending.drop_first()
                && final(self)@.next == old(self)@.next
                && final(self)@.fetches == old(self)@.fetches && !final(self)@.awaiting),
            old(self)@.pending.len() == 0 ==> final(self)@.yielded == old(self)@.yielded
                && final(self)@.pending.len() == 0 && final(self)@.next is None,
            old(self)@.pending.len() == 0 && old(self)@.next is Some && old(self)@.next->0 is Ok
                ==> (r matches PageStep::Fetch(p) && request_view(p) == old(self)@.next->0->Ok_0
                && final(self)@.awaiting && final(self)@.fetches == old(self)@.fetches + 1),
            old(self)@.pending.len() == 0 && old(self)@.next is Some && old(self)@.next->0 is Err
                ==> (r == PageStep::<T>::Failed(old(self)@.next->0->Err_0) && !final(self)@.awaiting
                && final(self)@.fetches == old(self)@.fetches),
            old(self)@.pending.len() == 0 && old(self)@.next is None ==> (r is Done
                && !final(self)@.awaiting && final(self)@.fetches == old(self)@.fetches
                && final(self)@.yielded == final(self)@.fetched),
    {
        if self.pending.len() > 0 {
            let x = self.pending.remove(0);
            proof {
                self.yielded@ = self.yielded@.push(x);
                assert(self.yielded@ + self.pending@ =~= old(self).yielded@ + old(self).pending@);
            }
            return PageStep::Item(x);
        }
        proof {
            assert(self.yielded@ =~= self.fetched@);
        }
        match self.next.take() {
            Some(Ok(req)) => {
                self.awaiting = true;
                proof {
                    self.fetches@ = self.fetches@ + 1;
                    assert((self.fetches@ - 1) * self.page_size <= self.yielded@.len());
                }
                PageStep::Fetch(req)
            },
            Some(Err(e)) => PageStep::Failed(e),
            None => PageStep::Done,
        }
    }

    /// Hands back the page that the last request fetched: its items, in
    /// order, and its "next page" cursor.
    pub fn receive_page(&mut self, items: Vec<T>, cursor: Option<&str>)
        requires
            old(self)@.wf(),
            old(self)@.awaiting,
        ensures
            final(self)@.wf(),
            !final(self)@.awaiting,
            final(self)@.fetched == old(self)@.fetched + items@,
            final(self)@.yielded == old(self)@.yielded,
            final(self)@.pending == items@,
            final(self)@.fetches == old(self)@.fetches,
            final(self)@.page_size == old(self)@.page_size,
            final(self)@.next == following_request(
                items@.len(),
                match cursor {
                    Some(c) => Some(c@),
                    None => None,
                },
                old(self)@.page_size,
            ),
    {
        let n = items.len();
        let ghost old_fetched = self.fetched@;
        let ghost page = items@;
        self.pending = items;
        self.awaiting = false;
        proof {
            self.fetched@ = old_fetched + page;
            assert(self.yielded@ + self.pending@ =~= self.fetched@);
        }
        self.next = match cursor {
            Some(c) => if (n as u64) < self.page_size {
                None
            } else {
                match join_url(API_ORIGIN, c) {
                    Ok(url) => {
                        let mut params: Vec<(String, String)> = Vec::new();
                        verbosity(&mut params);
                        assert(pairs_view(params@) =~= seq![verbosity_pair()]);
                        proof {
                            let f = self.fetches@;
                            let ps = self.page_size as nat;
                            assert(old_fetched.len() >= (f - 1) * ps);
                            assert(self.fetched@.len() >= f * ps) by (nonlinear_arith)
                                requires
                                    self.fetched@.len() == old_fetched.len() + page.len(),
                                    old_fetched.len() >= (f - 1) * ps,
                                    page.len() >= ps,
                                    f >= 1,
                            ;
                        }
                        Some(Ok(PageRequest { url, params }))
                    },
                    Err(_) => Some(Err(SmugMugError::UrlParsing)),
                }
            },
            None => None,
        };
    }
}

/// A page shorter than the page size, or one without a cursor, is the last:
/// nothing is requested after it.
pub proof fn lemma_last_page(items: nat, cursor: Option<Seq<char>>, page_size: nat)
    requires
        items < page_size || cursor is None,
    ensures
        following_request(items, cursor, page_size) is None,
{
}

/// Fetching follows consumption: the requests beyond the first never
/// outnumber the full pages already handed out.
pub proof fn lemma_fetches_follow_consumption<T>(p: PagerView<T>)
    requires
        p.wf(),
        p.fetches >= 1,
    ensures
        (p.fetches - 1) * p.page_size <= p.yielded.len(),
{
}

/// A consumer that stops before a full page has been handed out has caused at
/// most one page request.
pub proof fn lemma_early_stop_fetches_one_page<T>(p: PagerView<T>)
    requires
        p.wf(),
        p.yielded.len() < p.page_size,
    ensures
        p.fetches <= 1,
{
    if p.fetches >= 2 {
        assert((p.fetches - 1) * p.page_size >= p.page_size) by (nonlinear_arith)
            requires
                p.fetches >= 2,
        ;
    }
}

} // verus!
