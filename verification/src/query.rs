//! The description of a play, as the caller hands it in.

use crate::binary64::{in_unit_interval, is_fraction};
use crate::error::BridgeError;
use crate::marshal::{foreign_text, mkstr};
use vstd::prelude::*;

verus! {

/// A play on a beatmap. The caller owns it; the bridge only reads it.
#[derive(Debug, PartialEq, Eq)]
pub struct OsuMap {
    /// The buffer behind the path pointer, or `None` for the null pointer.
    pub path: Option<Vec<u8>>,
    /// The modifiers, as a bit mask.
    pub mods: u32,
    /// The accuracy as a fraction of one, as a binary64 pattern.
    pub acc: u64,
    /// The number of misses.
    pub miss: usize,
    /// The combo that the play reached.
    pub combo: usize,
    /// The highest combo that the beatmap allows.
    pub max_combo: usize,
}

impl OsuMap {
    /// The path that the query names, where it names one.
    pub open spec fn path_text(&self) -> Option<Seq<char>> {
        match self.path {
            Some(buf) => foreign_text(buf@),
            None => None,
        }
    }

    /// A query is valid when its path is a readable text, its accuracy lies
    /// between zero and one, and its combo does not exceed the maximum combo.
    pub open spec fn valid(&self) -> bool {
        &&& self.path_text() is Some
        &&& in_unit_interval(self.acc)
        &&& self.combo <= self.max_combo
    }

    /// Checks the query and reads its path.
    pub fn validate(&self) -> (r: Result<String, BridgeError>)
        ensures
            match r {
                Ok(path) => self.valid() && self.path_text() == Some(path@),
                Err(e) => e == BridgeError::InvalidInput && !self.valid(),
            },
    {
        if !is_fraction(self.acc) || self.combo > self.max_combo {
            return Err(BridgeError::InvalidInput);
        }
        match &self.path {
            Some(buf) => mkstr(Some(buf.as_slice())),
            None => Err(BridgeError::InvalidInput),
        }
    }
}

} // verus!
