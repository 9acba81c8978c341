//! Page navigation: the page that each control leads to, and the label between them.
use crate::text::{int_decimal, push_signed_decimal};
use vstd::prelude::*;

verus! {

/// The page before `cur`, never before the first.
pub open spec fn prev_page_of(cur: int) -> int {
    if cur - 1 > 1 {
        cur - 1
    } else {
        1
    }
}

/// The page after `cur`, never past the last.
pub open spec fn next_page_of(cur: int, max_page: int) -> int {
    if cur + 1 < max_page {
        cur + 1
    } else {
        max_page
    }
}

/// The page that the "Prev" control leads to.
pub fn prev_page(cur: i32) -> (page: i32)
    requires
        cur > i32::MIN,
    ensures
        page == prev_page_of(cur as int),
{
    if cur - 1 > 1 {
        cur - 1
    } else {
        1
    }
}

/// The page that the "Next" control leads to.
pub fn next_page(cur: i32, max_page: i32) -> (page: i32)
    requires
        cur < i32::MAX,
    ensures
        page == next_page_of(cur as int, max_page as int),
{
    if cur + 1 < max_page {
        cur + 1
    } else {
        max_page
    }
}

/// The page that the "First" control leads to.
pub fn first_page() -> (page: i32)
    ensures
        page == 1,
{
    1
}

/// The page that the "Last" control leads to.
pub fn last_page(max_page: i32) -> (page: i32)
    ensures
        page == max_page,
{
    max_page
}

/// The text between the controls: the page, the page count and the item count.
pub fn page_label(cur: i32, max_page: i32, item_count: i32) -> (label: String)
    ensures
        label@ == "Page "@ + int_decimal(cur as int) + " of "@ + int_decimal(max_page as int)
            + " ("@ + int_decimal(item_count as int) + " Media Items)"@,
{
    let mut label = String::from_str("Page ");
    push_signed_decimal(&mut label, cur as i64);
    label.append(" of ");
    push_signed_decimal(&mut label, max_page as i64);
    label.append(" (");
    push_signed_decimal(&mut label, item_count as i64);
    label.append(" Media Items)");
    label
}

/// From a page inside `1..=max_page`, every control leads to a page inside it, "Prev" never
/// goes past the start and "Next" never past the end.
pub proof fn lemma_navigation_stays_in_range(cur: int, max_page: int)
    requires
        1 <= cur <= max_page,
    ensures
        1 <= prev_page_of(cur) <= max_page,
        1 <= next_page_of(cur, max_page) <= max_page,
        prev_page_of(cur) <= cur <= next_page_of(cur, max_page),
        cur > 1 ==> prev_page_of(cur) == cur - 1,
        cur < max_page ==> next_page_of(cur, max_page) == cur + 1,
{
}

} // verus!
