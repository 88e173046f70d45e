//! `/explore`: the recordings that users share, page by page.

use vstd::prelude::*;

verus! {

/// Query of shared recordings: a page and, optionally, one game's.
pub struct ListParams {
    pub page: Option<i64>,
    pub game_id: Option<String>,
}

impl ListParams {
    /// The page asked for; the first when none is given.
    pub fn page(&self) -> (r: i64)
        ensures
            r == match self.page {
                Some(p) => p,
                None => 1,
            },
    {
        match self.page {
            Some(p) => p,
            None => 1,
        }
    }
}

} // verus!
