//! What the scorer reports and what the caller receives.

use crate::binary64::{at_least_zero, is_non_negative, ZERO};
use crate::error::BridgeError;
use crate::marshal::{foreign_bytes, mk_ptr_str, ForeignString};
use vstd::prelude::*;
use vstd::utf8::{encode_utf8, is_ascii_chars, is_ascii_chars_encode_utf8};

verus! {

/// The parts of a performance score. Every field is a binary64 pattern.
#[derive(Clone, Copy, Debug, PartialEq, Eq)]
pub struct Breakdown {
    /// The accuracy portion.
    pub pp_acc: u64,
    /// The aim portion.
    pub pp_aim: u64,
    /// The speed portion.
    pub pp_speed: u64,
}

/// What the scorer reports of one calculation. Every number is a binary64
/// pattern.
#[derive(Clone, Copy, Debug, PartialEq, Eq)]
pub struct ScoreReport {
    /// The performance points.
    pub pp: u64,
    /// The star rating of the beatmap under the modifiers.
    pub stars: u64,
    /// The parts of the score, where the beatmap's ruleset has them.
    pub breakdown: Option<Breakdown>,
}

/// The answer to a query. The bridge makes it and the caller owns it, the
/// diagnostic text included.
#[derive(Debug, PartialEq, Eq)]
pub struct PPResult {
    /// The performance points of the play.
    pub pp: u64,
    /// The accuracy portion of `pp`.
    pub pp_acc: u64,
    /// The aim portion of `pp`.
    pub pp_aim: u64,
    /// The speed portion of `pp`.
    pub pp_speed: u64,
    /// The performance points of the same play without combo breaks.
    pub pp_fc: u64,
    /// The most performance points that the modifiers allow.
    pub max_pp: u64,
    /// The star rating of the beatmap under the modifiers.
    pub map_star: u64,
    /// The diagnostic text.
    pub debug_text: ForeignString,
}

impl Breakdown {
    /// The decomposition of a score that has none: every part is zero.
    pub open spec fn zero() -> Breakdown {
        Breakdown { pp_acc: ZERO, pp_aim: ZERO, pp_speed: ZERO }
    }

    /// Every part is a number from zero upwards.
    pub open spec fn is_score(&self) -> bool {
        at_least_zero(self.pp_acc) && at_least_zero(self.pp_aim) && at_least_zero(self.pp_speed)
    }
}

impl ScoreReport {
    /// Every number of the report is a number from zero upwards.
    pub open spec fn is_score(&self) -> bool {
        &&& at_least_zero(self.pp)
        &&& at_least_zero(self.stars)
        &&& self.breakdown matches Some(parts) ==> parts.is_score()
    }

    /// The parts that the result shows for this report: its own, or zeros
    /// where the ruleset has none.
    pub open spec fn parts(&self) -> Breakdown {
        match self.breakdown {
            Some(parts) => parts,
            None => Breakdown::zero(),
        }
    }

    /// Checks that the report holds scores and nothing else.
    pub fn check(&self) -> (r: bool)
        ensures
            r == self.is_score(),
    {
        if !is_non_negative(self.pp) || !is_non_negative(self.stars) {
            return false;
        }
        match self.breakdown {
            Some(parts) => is_non_negative(parts.pp_acc) && is_non_negative(parts.pp_aim)
                && is_non_negative(parts.pp_speed),
            None => true,
        }
    }

    /// The decomposition of the score, which only some rulesets have.
    pub fn decomposition(&self) -> (r: Result<Breakdown, BridgeError>)
        ensures
            match r {
                Ok(parts) => self.breakdown == Some(parts),
                Err(e) => e == BridgeError::UnsupportedRuleset && self.breakdown is None,
            },
    {
        match self.breakdown {
            Some(parts) => Ok(parts),
            None => Err(BridgeError::UnsupportedRuleset),
        }
    }
}

impl PPResult {
    /// The result for a play: its score and parts, the score of the play
    /// without combo breaks with the star rating found on the way, and the
    /// best score under the modifiers.
    pub open spec fn of(
        play: ScoreReport,
        full_combo: ScoreReport,
        maximum: ScoreReport,
        debug_text: ForeignString,
    ) -> PPResult {
        PPResult {
            pp: play.pp,
            pp_acc: play.parts().pp_acc,
            pp_aim: play.parts().pp_aim,
            pp_speed: play.parts().pp_speed,
            pp_fc: full_combo.pp,
            max_pp: maximum.pp,
            map_star: full_combo.stars,
            debug_text,
        }
    }

    /// Every number of the result is a number from zero upwards.
    pub open spec fn is_score(&self) -> bool {
        &&& at_least_zero(self.pp)
        &&& at_least_zero(self.pp_acc)
        &&& at_least_zero(self.pp_aim)
        &&& at_least_zero(self.pp_speed)
        &&& at_least_zero(self.pp_fc)
        &&& at_least_zero(self.max_pp)
        &&& at_least_zero(self.map_star)
    }

    /// Puts a result together from the three reports of a run. A play on a
    /// ruleset without decomposition gets zeros for its parts.
    pub fn assemble(
        play: ScoreReport,
        full_combo: ScoreReport,
        maximum: ScoreReport,
        debug_text: ForeignString,
    ) -> (r: PPResult)
        ensures
            r == PPResult::of(play, full_combo, maximum, debug_text),
    {
        let parts = match play.decomposition() {
            Ok(parts) => parts,
            Err(_) => Breakdown { pp_acc: ZERO, pp_aim: ZERO, pp_speed: ZERO },
        };
        PPResult {
            pp: play.pp,
            pp_acc: parts.pp_acc,
            pp_aim: parts.pp_aim,
            pp_speed: parts.pp_speed,
            pp_fc: full_combo.pp,
            max_pp: maximum.pp,
            map_star: full_combo.stars,
            debug_text,
        }
    }
}

/// A result made of reports that hold scores holds scores.
pub proof fn assembled_result_is_score(
    play: ScoreReport,
    full_combo: ScoreReport,
    maximum: ScoreReport,
    debug_text: ForeignString,
)
    requires
        play.is_score(),
        full_combo.is_score(),
        maximum.is_score(),
    ensures
        PPResult::of(play, full_combo, maximum, debug_text).is_score(),
{
    crate::binary64::non_negative_patterns(ZERO);
}

/// A fixed sample result: every number is zero and the text is `OK`. Callers
/// use it to check that results cross the boundary intact.
pub fn return_obj() -> (r: PPResult)
    ensures
        r.pp == ZERO,
        r.pp_acc == ZERO,
        r.pp_aim == ZERO,
        r.pp_speed == ZERO,
        r.pp_fc == ZERO,
        r.max_pp == ZERO,
        r.map_star == ZERO,
        r.debug_text@ == seq![0x4fu8, 0x4bu8, 0u8],
{
    proof {
        reveal_strlit("OK");
        let text = "OK"@;
        assert(text =~= seq!['O', 'K']);
        assert(is_ascii_chars(text));
        is_ascii_chars_encode_utf8(text);
        let bytes = encode_utf8(text);
        assert(bytes =~= seq![0x4fu8, 0x4bu8]);
        assert(!bytes.contains(0u8));
        assert(foreign_bytes(text) == Some(bytes.push(0u8)));
        assert(bytes.push(0u8) =~= seq![0x4fu8, 0x4bu8, 0u8]);
    }
    let debug_text = mk_ptr_str("OK").unwrap();
    PPResult {
        pp: ZERO,
        pp_acc: ZERO,
        pp_aim: ZERO,
        pp_speed: ZERO,
        pp_fc: ZERO,
        max_pp: ZERO,
        map_star: ZERO,
        debug_text,
    }
}

} // verus!
