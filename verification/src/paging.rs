//! Pages of lists: every list of graphs, objectives and maps comes ten at a
//! time.

use vstd::prelude::*;

verus! {

/// The number of entries on a page.
pub const PAGE_SIZE: i64 = 10;

/// Whether the offset of page `page` fits in an `i64`.
pub open spec fn page_in_range(page: i64) -> bool {
    i64::MIN <= page * PAGE_SIZE <= i64::MAX
}

/// The number of entries before page `page`.
pub fn page_offset(page: i64) -> (r: i64)
    requires
        page_in_range(page),
    ensures
        r == page * PAGE_SIZE,
        r == page * 10,
{
    page * PAGE_SIZE
}

/// Pages follow one another: page `page + 1` starts where page `page` ends.
pub proof fn lemma_pages_adjacent(page: i64)
    requires
        page_in_range(page),
        page < i64::MAX,
        page_in_range((page + 1) as i64),
    ensures
        (page + 1) * PAGE_SIZE == page * PAGE_SIZE + PAGE_SIZE,
{
}

} // verus!
