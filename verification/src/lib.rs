//! Decision logic of a performance-point bridge for foreign callers.
//!
//! A host program hands the bridge a beatmap path and the description of a
//! play; the bridge answers with a decomposed performance score, the score of
//! the same play without combo breaks, the best score the modifiers allow and
//! the star rating. The scoring itself is done by a driver around this
//! library: the library validates what comes in, decides what the driver has
//! to compute next, checks what the driver reports and assembles the answer.
//!
//! Floating-point numbers never enter the library. Every such number is
//! carried as the bit pattern of its IEEE 754 binary64 encoding, and
//! [`binary64`] says what those patterns mean.

pub mod binary64;
pub mod error;
pub mod marshal;
pub mod pipeline;
pub mod query;
pub mod result;
pub mod text;

pub use crate::error::BridgeError;
pub use crate::marshal::{hello_rust, mk_ptr_str, mk_ptr_string, mkstr, ForeignString};
pub use crate::pipeline::{cal_pp, Event, Pipeline, Step};
pub use crate::query::OsuMap;
pub use crate::result::{return_obj, PPResult};
use vstd::prelude::*;

verus! {

/// Hands an integer back unchanged, widened to the platform word.
pub fn debug_return(n: u32) -> (r: usize)
    ensures
        r == n,
{
    n as usize
}

} // verus!
