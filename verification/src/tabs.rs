//! Which tab closing the current tab removes.
use vstd::prelude::*;

verus! {

/// The page that closing the current tab removes: the current page, if
/// there is one, as long as more than one page is open.
pub open spec fn spec_tab_to_close(current: Option<u32>, n_pages: u32) -> Option<u32> {
    match current {
        Some(page) => if n_pages > 1 {
            Some(page)
        } else {
            None
        },
        None => None,
    }
}

/// The page that closing the current tab removes, or `None` when nothing is
/// to be closed: there is no current page, or it is the only one.
pub fn tab_to_close(current: Option<u32>, n_pages: u32) -> (page: Option<u32>)
    ensures
        page == spec_tab_to_close(current, n_pages),
        current is Some && n_pages > 1 ==> page == current,
        page is Some ==> page == current && n_pages > 1,
{
    match current {
        Some(page) => {
            if n_pages > 1 {
                Some(page)
            } else {
                None
            }
        },
        None => None,
    }
}

/// Closing never removes the last tab: a page is removed only while at
/// least two are open, so at least one stays.
pub proof fn law_last_tab_stays(current: Option<u32>, n_pages: u32)
    ensures
        spec_tab_to_close(current, n_pages) is Some ==> n_pages - 1 >= 1,
        spec_tab_to_close(current, n_pages) is Some ==> spec_tab_to_close(current, n_pages)
            == current,
{
}

/// Whenever there is a current page and more than one page is open, closing
/// removes that page; otherwise nothing is removed.
pub proof fn law_current_tab_closes_when_others_remain(current: Option<u32>, n_pages: u32)
    ensures
        current is Some && n_pages > 1 ==> spec_tab_to_close(current, n_pages) == current,
        !(current is Some && n_pages > 1) ==> spec_tab_to_close(current, n_pages) is None,
{
}

} // verus!
