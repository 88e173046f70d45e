//! Marker types for the database's custom column types.

use vstd::prelude::*;

verus! {

/// The `media_state` column type.
pub struct MediaState;

} // verus!
