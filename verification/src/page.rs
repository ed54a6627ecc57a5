//! The paginated-listing protocol: draining a page-indexed remote
//! collection into one complete in-memory collection, atomically — either
//! every item in page order, or the first page-fetch error and nothing
//! else.

use vstd::prelude::*;

verus! {

/// One fetched page: its items and whether the response pointed at a
/// further page.
pub struct Page<T> {
    pub items: Vec<T>,
    pub has_next: bool,
}

/// The failure of one scripted page fetch.
#[derive(Clone, Copy, Debug, PartialEq, Eq)]
pub struct ListError;

/// A stateless, re-issuable description of a paged remote collection:
/// it can produce page `n` of results for any `n`.  The spec functions
/// fix what each page holds, so a drained listing can be pinned down.
pub trait Pageable: Sized {
    type Item;

    type Error;

    /// Whether fetching page `n` fails.
    spec fn page_fails(&self, n: int) -> bool;

    /// The error fetching page `n` yields, when it fails.
    spec fn page_error(&self, n: int) -> Self::Error;

    /// The items page `n` holds, when it succeeds.
    spec fn page_items(&self, n: int) -> Seq<Self::Item>;

    /// Whether page `n` reports that a further page exists.
    spec fn page_has_next(&self, n: int) -> bool;

    fn list_by_page(&self, page: u32) -> (r: Result<Page<Self::Item>, Self::Error>)
        ensures
            self.page_fails(page as int) ==> (r matches Err(e) && e == self.page_error(
                page as int,
            )),
            !self.page_fails(page as int) ==> (r matches Ok(p) && p.items@ == self.page_items(
                page as int,
            ) && p.has_next == self.page_has_next(page as int)),
    ;
}

/// The drain protocol as a step-by-step state machine, for callers whose
/// page fetch suspends and so cannot stand behind [`Pageable`]: the
/// caller fetches whatever page `next_page` names and feeds it back,
/// until the drain stops.  On a fetch error the caller returns only the
/// error and abandons the drain — no partial results.
pub struct ListingDrain<T> {
    /// The items accumulated so far, in page order.
    pub items: Vec<T>,
    /// The page to fetch next.
    pub page: u32,
    /// Whether a fetched page reported no further page.
    pub done: bool,
}

impl<T> ListingDrain<T> {
    pub fn new() -> (r: Self)
        ensures
            r.items@ == Seq::<T>::empty(),
            r.page == 0,
            !r.done,
    {
        ListingDrain { items: Vec::new(), page: 0, done: false }
    }

    /// The page to fetch next, or `None` once the drain stopped.
    pub fn next_page(&self) -> (r: Option<u32>)
        ensures
            r == (if self.done {
                Option::<u32>::None
            } else {
                Some(self.page)
            }),
    {
        if self.done {
            None
        } else {
            Some(self.page)
        }
    }

    /// Feeds one fetched page: its items are appended in order, and the
    /// drain stops exactly when the page reports no further page.
    pub fn on_page(&mut self, pg: Page<T>)
        requires
            !old(self).done,
            old(self).page < u32::MAX,
        ensures
            final(self).items@ == old(self).items@ + pg.items@,
            final(self).done == !pg.has_next,
            final(self).page == old(self).page + 1,
    {
        let mut incoming = pg.items;
        self.items.append(&mut incoming);
        self.done = !pg.has_next;
        self.page = self.page + 1;
    }
}

/// The drain halts at page `n`: the fetch fails there, or that page
/// reports no further page.
pub open spec fn halts_at<P: Pageable>(p: P, n: int) -> bool {
    p.page_fails(n) || !p.page_has_next(n)
}

/// Page `n` is where the drain stops: the first halting page.
pub open spec fn stops_at<P: Pageable>(p: P, n: int) -> bool {
    &&& 0 <= n
    &&& halts_at(p, n)
    &&& forall|m: int| 0 <= m < n ==> !halts_at(p, m)
}

/// The items of pages `0 .. k`, in page order.
pub open spec fn drained<P: Pageable>(p: P, k: int) -> Seq<P::Item>
    decreases k,
{
    if k <= 0 {
        Seq::empty()
    } else {
        drained(p, k - 1) + p.page_items(k - 1)
    }
}

/// Fetches successive pages starting at page 0, accumulating items, and
/// stops as soon as a fetched page reports no further page: over N pages
/// where the Nth reports no further page, exactly N fetches happen and
/// the union of all N pages' items comes back in page order.  A failure
/// on any page returns only that failure — no partial results.
pub fn list_all<P: Pageable>(p: &P) -> (r: Result<Vec<P::Item>, P::Error>)
    requires
        exists|n: int| 0 <= n <= u32::MAX as int && halts_at(*p, n),
    ensures
        forall|n: int| stops_at(*p, n) ==> if p.page_fails(n) {
            r matches Err(e) && e == p.page_error(n)
        } else {
            r matches Ok(v) && v@ == drained(*p, n + 1)
        },
{
    let ghost bound = choose|n: int| 0 <= n <= u32::MAX as int && halts_at(*p, n);
    let mut v: Vec<P::Item> = Vec::new();
    let mut page: u32 = 0;
    loop
        invariant
            exists|n: int| 0 <= n <= u32::MAX as int && halts_at(*p, n),
            bound == choose|n: int| 0 <= n <= u32::MAX as int && halts_at(*p, n),
            0 <= bound <= u32::MAX as int,
            halts_at(*p, bound),
            forall|m: int| 0 <= m < page as int ==> !halts_at(*p, m),
            page as int <= bound,
            v@ == drained(*p, page as int),
        decreases bound - page as int,
    {
        let res = p.list_by_page(page);
        match res {
            Err(e) => {
                proof {
                    assert(halts_at(*p, page as int));
                    assert(stops_at(*p, page as int));
                    assert(forall|n: int| stops_at(*p, n) ==> n == page as int);
                }
                return Err(e);
            },
            Ok(pg) => {
                let has_next = pg.has_next;
                let mut items = pg.items;
                v.append(&mut items);
                proof {
                    assert(v@ == drained(*p, page as int + 1));
                }
                if !has_next {
                    proof {
                        assert(halts_at(*p, page as int));
                        assert(stops_at(*p, page as int));
                        assert(forall|n: int| stops_at(*p, n) ==> n == page as int);
                    }
                    return Ok(v);
                }
                proof {
                    assert(!halts_at(*p, page as int));
                    assert(page as int != bound);
                }
                page = page + 1;
            },
        }
    }
}

} // verus!
