use vstd::prelude::*;

use crate::strmap::StrMap;

verus! {

/// Context handed to callbacks.
#[derive(Debug, Clone)]
pub struct CallbackContext {
    /// When the callback is invoked (Unix seconds).
    pub timestamp: u64,
    /// Additional metadata from the engine.
    pub metadata: StrMap<String>,
}

impl CallbackContext {
    /// The context the engine hands to callbacks at time `now`: no metadata.
    pub fn at(now: u64) -> (c: CallbackContext)
        ensures
            c.timestamp == now,
            c.metadata@ == Map::<Seq<char>, String>::empty(),
    {
        CallbackContext { timestamp: now, metadata: StrMap::new() }
    }
}

} // verus!
