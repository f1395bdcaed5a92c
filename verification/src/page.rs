//! Flattening a paginated list response stream into one ordered collection.
//!
//! The caller issues the list RPC page by page (each page under its own
//! retried call) and feeds every successful page to a [`PageCollector`]. The
//! collector appends the page's items in order, decides from the continuation
//! token alone whether another page must be fetched, and hands back the exact
//! concatenation of all pages once the server signals the end. On an
//! unrecoverable error the caller aborts and drops the collector, so partial
//! results are never returned.

use vstd::prelude::*;

verus! {

/// One server response of a list RPC: the page's items in server order, and
/// the continuation token. An empty token means this was the last page; the
/// item count says nothing about termination.
pub struct Page<T> {
    pub items: Vec<T>,
    pub next_page_token: String,
}

/// Accumulates pages of a single list call.
///
/// The collector is well-formed when the accumulator is exactly the
/// concatenation, in arrival order, of the pages accepted so far; every
/// operation below preserves that.
pub struct PageCollector<T> {
    items: Vec<T>,
    token: String,
    finished: bool,
    pages: Ghost<Seq<Seq<T>>>,
}

impl<T> PageCollector<T> {
    /// The items of each accepted page, in arrival order.
    pub closed spec fn pages(self) -> Seq<Seq<T>> {
        self.pages@
    }

    /// Everything accumulated so far, in order.
    pub closed spec fn collected(self) -> Seq<T> {
        self.items@
    }

    /// Whether the last accepted page carried an empty continuation token.
    pub closed spec fn is_finished(self) -> bool {
        self.finished
    }

    /// The continuation token of the last accepted page: the token the next
    /// request must carry while the collection is unfinished.
    pub closed spec fn pending_token(self) -> Seq<char> {
        self.token@
    }

    /// The accumulator is the exact concatenation of the accepted pages.
    pub closed spec fn wf(self) -> bool {
        self.items@ == self.pages@.flatten()
    }

    /// A fresh collector: nothing accumulated, more pages expected.
    pub fn new() -> (r: PageCollector<T>)
        ensures
            r.wf(),
            !r.is_finished(),
            r.pages() == Seq::<Seq<T>>::empty(),
            r.collected() == Seq::<T>::empty(),
    {
        let r = PageCollector {
            items: Vec::new(),
            token: String::new(),
            finished: false,
            pages: Ghost(Seq::empty()),
        };
        assert(r.pages@.flatten() =~= Seq::<T>::empty());
        r
    }

    /// Accepts one successful page: appends its items in order, records its
    /// continuation token, and finishes exactly when that token is empty —
    /// a page with no items but a non-empty token keeps the collection going.
    pub fn accept_page(&mut self, page: Page<T>)
        requires
            old(self).wf(),
            !old(self).is_finished(),
        ensures
            final(self).wf(),
            final(self).pages() == old(self).pages().push(page.items@),
            final(self).collected() == old(self).collected() + page.items@,
            final(self).is_finished() <==> page.next_page_token@.len() == 0,
            final(self).pending_token() == page.next_page_token@,
    {
        let ghost page_items = page.items@;
        let Page { mut items, next_page_token } = page;
        proof {
            self.pages@.lemma_flatten_push(page_items);
        }
        self.items.append(&mut items);
        self.finished = next_page_token.as_str().is_empty();
        self.token = next_page_token;
        let ghost prior = self.pages@;
        self.pages = Ghost(prior.push(page_items));
        assert(self.items@ =~= self.pages@.flatten());
    }

    /// Whether the collection is complete and the aggregate may be taken.
    pub fn is_done(&self) -> (r: bool)
        ensures
            r == self.is_finished(),
    {
        self.finished
    }

    /// The token to put in the next request while unfinished.
    pub fn next_token(&self) -> (r: &String)
        ensures
            r@ == self.pending_token(),
    {
        &self.token
    }

    /// Hands out the aggregate: exactly the concatenation of every accepted
    /// page, in page order — no duplication, no reordering. Only a finished
    /// collection may be taken; an aborted one is dropped instead.
    pub fn into_items(self) -> (r: Vec<T>)
        requires
            self.wf(),
            self.is_finished(),
        ensures
            r@ == self.collected(),
            r@ == self.pages().flatten(),
    {
        self.items
    }
}

/// Law: if `pages` holds `n` pages of `k` items each, their concatenation
/// holds exactly `n * k` items.
pub proof fn lemma_uniform_pages_count<T>(pages: Seq<Seq<T>>, k: nat)
    requires
        forall|i: int| 0 <= i < pages.len() ==> (#[trigger] pages[i]).len() == k,
    ensures
        pages.flatten().len() == pages.len() * k,
    decreases pages.len(),
{
    if pages.len() == 0 {
    } else {
        let tail = pages.drop_first();
        assert(forall|i: int| 0 <= i < tail.len() ==> (#[trigger] tail[i]) == pages[i + 1]);
        lemma_uniform_pages_count(tail, k);
        assert(pages.flatten() == pages[0] + tail.flatten());
        assert(k + (pages.len() - 1) * k == pages.len() * k) by (nonlinear_arith)
            requires pages.len() >= 1;
    }
}

/// Law: a collection that ends with its first page (an immediately empty
/// continuation token) aggregates exactly that page's items.
pub proof fn lemma_single_page_aggregate<T>(items: Seq<T>)
    ensures
        seq![items].flatten() == items,
{
    seq![items].lemma_flatten_one_element();
}

} // verus!
