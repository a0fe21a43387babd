//! The failures the bridge reports to its caller.

use vstd::prelude::*;

verus! {

/// Why a request produced no result.
#[derive(Clone, Copy, Debug, PartialEq, Eq, Structural)]
pub enum BridgeError {
    /// An absent value, text that is not UTF-8 or holds a NUL, an accuracy
    /// outside the unit interval, or a combo above the maximum combo.
    InvalidInput,
    /// The beatmap file is missing, unreadable or malformed.
    MapParseError,
    /// The beatmap's ruleset has no aim/speed/accuracy decomposition.
    UnsupportedRuleset,
    /// The scoring algorithm failed or reported a value that is no score.
    InternalComputationError,
}

} // verus!
