//! The count of searches served.

use vstd::prelude::*;

verus! {

/// How many searches were served since the beginning.
#[derive(Debug, Clone, Copy, Hash, PartialEq, Eq, Structural)]
pub struct SearchCount {
    pub all_time_search_count: u64,
}

impl SearchCount {
    /// The count after one more search, or `None` where it does not fit in
    /// 64 bits.
    pub fn incremented(self) -> (next: Option<SearchCount>)
        ensures
            next == (if self.all_time_search_count < u64::MAX {
                Some(
                    SearchCount {
                        all_time_search_count: (self.all_time_search_count + 1) as u64,
                    },
                )
            } else {
                None
            }),
    {
        match self.all_time_search_count.checked_add(1) {
            Some(count) => Some(SearchCount { all_time_search_count: count }),
            None => None,
        }
    }
}

} // verus!
