//! Settings of the search service.

use vstd::prelude::*;

verus! {

/// How the search service is reached.
#[derive(Debug, Clone, Default)]
pub struct SearchSettings {
    /// The token that authorizes queries.
    pub kagi_auth_token: String,
}

} // verus!
