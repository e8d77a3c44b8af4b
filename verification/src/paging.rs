//! Paging of search results: ten rows a page, pages counted from one.
use vstd::prelude::*;

verus! {

/// How many rows a page holds.
pub const PAGE_SIZE: i32 = 10;

/// The offset of the first row of a page: `page.saturating_sub(1) * 10`.
pub open spec fn page_offset(page: i32) -> int {
    (if page == i32::MIN { i32::MIN as int } else { page - 1 }) * 10
}

/// Whether a page's offset fits in an `i32`; for other pages the offset
/// computation overflows.
pub open spec fn page_in_range(page: i32) -> bool {
    i32::MIN <= page_offset(page) <= i32::MAX
}

/// The offset of the first row of a page.
pub fn offset_for_page(page: i32) -> (r: i32)
    requires
        page_in_range(page),
    ensures
        r == page_offset(page),
{
    let before = if page == i32::MIN { i32::MIN } else { page - 1 };
    before * PAGE_SIZE
}

/// Page one starts at the first row, and each page starts `PAGE_SIZE` rows
/// after the one before it.
pub proof fn pages_follow_each_other(page: i32)
    requires
        1 <= page < i32::MAX,
    ensures
        page_offset(1) == 0,
        page_offset((page + 1) as i32) == page_offset(page) + PAGE_SIZE,
{
}

} // verus!
