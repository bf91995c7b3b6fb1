//! Offset/limit paging of listings.
use vstd::prelude::*;

verus! {

/// Which slice of a listing to return.
#[derive(Debug, Clone, Copy, PartialEq, Eq, Structural)]
pub struct PageRequest {
    pub limit: u32,
    pub offset: u32,
}

impl Default for PageRequest {
    /// The first fifty items.
    fn default() -> (r: Self)
        ensures
            r.limit == 50,
            r.offset == 0,
    {
        PageRequest { limit: 50, offset: 0 }
    }
}

/// One page of a listing together with the size of the whole listing.
#[derive(Debug)]
pub struct Page<T> {
    pub items: Vec<T>,
    pub total: u64,
    pub limit: u32,
    pub offset: u32,
}

/// The items of `all` at positions `offset .. offset + limit` that exist.
pub open spec fn page_window<T>(all: Seq<T>, limit: int, offset: int) -> Seq<T> {
    if offset >= all.len() {
        Seq::empty()
    } else if offset + limit <= all.len() {
        all.subrange(offset, offset + limit)
    } else {
        all.subrange(offset, all.len() as int)
    }
}

/// `page` is the window `req` of the listing `all`.
pub open spec fn is_page_of<T>(page: Page<T>, all: Seq<T>, req: PageRequest) -> bool {
    &&& page.items@ == page_window(all, req.limit as int, req.offset as int)
    &&& page.total == all.len()
    &&& page.limit == req.limit
    &&& page.offset == req.offset
}

/// Cut the window `req` out of a complete listing.
pub fn paginate<T>(all: Vec<T>, req: PageRequest) -> (r: Page<T>)
    ensures
        is_page_of(r, all@, req),
{
    let total = all.len() as u64;
    let start = req.offset as usize;
    let ghost whole = all@;
    let mut rest = all;
    if start >= rest.len() {
        return Page { items: Vec::new(), total, limit: req.limit, offset: req.offset };
    }
    let mut items = rest.split_off(start);
    let want = req.limit as usize;
    items.truncate(want);
    proof {
        let a = whole;
        if start + want <= a.len() {
            assert(items@ =~= a.subrange(start as int, start + want));
        } else {
            assert(items@ =~= a.subrange(start as int, a.len() as int));
        }
    }
    Page { items, total, limit: req.limit, offset: req.offset }
}

} // verus!
