//! How the list screens search: a blank search lists everything, any other
//! search matches the records that contain it.
use vstd::prelude::*;

use crate::models::ItemStatus;
use crate::text::{contains_pattern, is_blank, is_blank_str, like_pattern};

verus! {

/// The `LIKE` pattern that a search asks for: none for a blank search
/// (everything is listed), `%search%` otherwise. The pattern keeps the
/// search as typed; only the test for blankness trims it.
pub fn search_pattern(search: &str) -> (r: Option<String>)
    ensures
        r is None <==> is_blank(search@),
        r matches Some(p) ==> p@ == like_pattern(search@),
{
    if is_blank_str(search) {
        None
    } else {
        Some(contains_pattern(search))
    }
}

/// How the inventory list is narrowed: by a name or inventory number
/// pattern, by status, by both, or not at all.
pub struct ItemListQuery {
    pub pattern: Option<String>,
    pub status: Option<ItemStatus>,
}

/// The inventory list query for a search text and an optional status.
pub fn plan_item_list(search: &str, status_filter: Option<ItemStatus>) -> (r: ItemListQuery)
    ensures
        r.status == status_filter,
        r.pattern is None <==> is_blank(search@),
        r.pattern matches Some(p) ==> p@ == like_pattern(search@),
{
    ItemListQuery { pattern: search_pattern(search), status: status_filter }
}

} // verus!
