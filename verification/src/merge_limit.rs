//! The optimizer rule that turns a limit over a sort into a top-k.
use vstd::prelude::*;

verus! {

/// Replaces a `Limit` directly over a `Sort` by a top-k node, when the
/// rows to keep are few.
pub struct MergeLimitWithSortRule {}

/// The most rows (skipped and fetched) for which a top-k is worth it.
pub const TOPK_MAX_ROWS: usize = 255;

impl MergeLimitWithSortRule {
    pub fn name(&self) -> (r: &'static str)
        ensures
            r@ == "merge_limit_with_sort"@,
    {
        "merge_limit_with_sort"
    }

    /// For a limit that skips `skip` rows and fetches `fetch` (if bounded)
    /// over an input that is a sort or not: the top-k node's skip and
    /// fetch, when the limit and the sort merge; `None` when the plan is
    /// left as it is and only its children are optimized.
    pub fn merge(&self, skip: usize, fetch: Option<usize>, input_is_sort: bool) -> (r: Option<(usize, usize)>)
        ensures
            r is Some <==> (fetch is Some && input_is_sort && skip + fetch->0 <= TOPK_MAX_ROWS),
            r matches Some((s, f)) ==> s == skip && Some(f) == fetch,
    {
        match fetch {
            Some(f) => {
                if input_is_sort && skip <= TOPK_MAX_ROWS && f <= TOPK_MAX_ROWS - skip {
                    Some((skip, f))
                } else {
                    None
                }
            },
            None => None,
        }
    }
}

} // verus!
