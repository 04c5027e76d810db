//! Pages of a listing.
use vstd::prelude::*;

verus! {

/// A page of items and the cursor after which the next page begins, where there is one.
#[derive(Debug)]
pub struct Page<T, C> {
    pub items: Vec<T>,
    pub next_cursor: Option<C>,
}

impl<T, C> View for Page<T, C> {
    type V = (Seq<T>, Option<C>);

    open spec fn view(&self) -> (Seq<T>, Option<C>) {
        (self.items@, self.next_cursor)
    }
}

/// The items of a page of at most `limit`, when one more was asked for.
pub open spec fn page_items<T>(found: Seq<T>, limit: nat) -> Seq<T> {
    if found.len() > limit {
        found.take(limit as int)
    } else {
        found
    }
}

/// A further page follows when more than `limit` items were found.
pub open spec fn has_next<T>(found: Seq<T>, limit: nat) -> bool {
    found.len() > limit
}

/// One more than the limit, so that a further page shows.
pub open spec fn fetch_limit_spec(limit: u16) -> i64 {
    (limit + 1) as i64
}

/// One more than the limit, so that a further page shows.
pub fn fetch_limit(limit: u16) -> (r: i64)
    ensures
        r == fetch_limit_spec(limit),
        r == limit + 1,
{
    limit as i64 + 1
}

/// Cuts what was found to a page and tells whether another follows.
pub fn cut_page<T>(found: Vec<T>, limit: usize) -> (r: (Vec<T>, bool))
    ensures
        r.0@ == page_items(found@, limit as nat),
        r.1 == has_next(found@, limit as nat),
{
    let mut items = found;
    let more: bool = items.len() > limit;
    if more {
        items.truncate(limit);
    }
    (items, more)
}

/// A page holds no more than its limit, is a beginning of what was found, and is cut short exactly
/// when another page follows.
pub proof fn page_is_bounded_prefix<T>(found: Seq<T>, limit: nat)
    ensures
        page_items(found, limit).len() <= limit,
        page_items(found, limit) == found.take(page_items(found, limit).len() as int),
        has_next(found, limit) <==> page_items(found, limit).len() < found.len(),
{
    assert(page_items(found, limit) =~= found.take(page_items(found, limit).len() as int));
}

/// Where one item more than the limit is fetched, a page followed by the rest of the listing after
/// its last item is the whole listing.
pub proof fn pages_cover_listing<T>(listing: Seq<T>, limit: nat)
    requires
        limit > 0,
    ensures
        ({
            let fetched = if listing.len() > limit + 1 {
                listing.take(limit as int + 1)
            } else {
                listing
            };
            let page = page_items(fetched, limit);
            &&& has_next(fetched, limit) <==> listing.len() > limit
            &&& page + listing.skip(page.len() as int) == listing
            &&& !has_next(fetched, limit) ==> page == listing
        }),
{
    let fetched = if listing.len() > limit + 1 {
        listing.take(limit as int + 1)
    } else {
        listing
    };
    let page = page_items(fetched, limit);
    assert(page + listing.skip(page.len() as int) =~= listing);
}

} // verus!
