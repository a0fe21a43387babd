//! The order of work for one query.
//!
//! The scoring of a beatmap is not done here: a driver parses the file and
//! runs the scorer. This module decides what the driver does next. It is
//! started by [`cal_pp`], which checks the query, and moved on by
//! [`Pipeline::advance`] with what the driver found. Each answer is a
//! [`Step`]: more work for the driver, the finished result, or the failure.
//! A run keeps nothing beyond its own `Pipeline` value.

use crate::binary64::in_unit_interval;
use crate::error::BridgeError;
use crate::marshal::{foreign_bytes, mk_ptr_string, ForeignString};
use crate::query::OsuMap;
use crate::result::{assembled_result_is_score, PPResult, ScoreReport};
use crate::text::{debug_line, debug_line_foreign_form, debug_text};
use vstd::prelude::*;

verus! {

/// The numbers of a query.
#[derive(Clone, Copy, Debug, PartialEq, Eq)]
pub struct Play {
    /// The modifiers, as a bit mask.
    pub mods: u32,
    /// The accuracy as a fraction of one, as a binary64 pattern.
    pub acc: u64,
    /// The number of misses.
    pub miss: usize,
    /// The combo that the play reached.
    pub combo: usize,
    /// The highest combo that the beatmap allows.
    pub max_combo: usize,
}

/// What the scorer is asked to score.
#[derive(Clone, Copy, Debug, PartialEq, Eq)]
pub struct ScoreRequest {
    /// The modifiers, as a bit mask.
    pub mods: u32,
    /// The combo to score.
    pub combo: usize,
    /// The number of misses.
    pub miss: usize,
    /// The accuracy as a fraction of one, as a binary64 pattern.
    pub acc: u64,
}

/// What the driver found when it did the last step.
#[derive(Clone, Copy, Debug, PartialEq, Eq)]
pub enum Event {
    /// The beatmap was read and parsed.
    MapParsed,
    /// The beatmap is missing, unreadable or malformed.
    MapRejected,
    /// The scorer finished, with this report.
    Scored(ScoreReport),
    /// The scorer did not finish.
    ScorerFailed,
}

/// What the driver has to do next, or how the run ended.
#[derive(Debug, PartialEq, Eq)]
pub enum Step {
    /// Parse the beatmap at this path.
    ParseMap { path: String },
    /// Score the play as it was.
    ScorePlay(ScoreRequest),
    /// Score the play without combo breaks, on the difficulty attributes
    /// that the scorer found for the play.
    ScoreFullCombo(ScoreRequest),
    /// Score the perfect play under these modifiers.
    ScoreMaximum { mods: u32 },
    /// The run is over: hand this result to the caller.
    Deliver(PPResult),
    /// The run is over: report this failure and no result.
    Fail(BridgeError),
}

/// How far a run has come, with what it has gathered.
#[derive(Debug, PartialEq, Eq)]
pub enum Pipeline {
    /// The beatmap is being parsed.
    Parsing { play: Play, debug_text: ForeignString },
    /// The play is being scored.
    ScoringPlay { play: Play, debug_text: ForeignString },
    /// The play without combo breaks is being scored.
    ScoringFullCombo { play: Play, debug_text: ForeignString, actual: ScoreReport },
    /// The perfect play is being scored.
    ScoringMaximum {
        play: Play,
        debug_text: ForeignString,
        actual: ScoreReport,
        full_combo: ScoreReport,
    },
    /// The run has delivered or failed.
    Finished,
}

impl Play {
    /// The request for the play as it was.
    pub open spec fn as_played(&self) -> ScoreRequest {
        ScoreRequest { mods: self.mods, combo: self.combo, miss: self.miss, acc: self.acc }
    }

    /// The request for the play without combo breaks: the same modifiers,
    /// misses and accuracy, with the maximum combo for the combo.
    pub open spec fn as_full_combo(&self) -> ScoreRequest {
        ScoreRequest { mods: self.mods, combo: self.max_combo, miss: self.miss, acc: self.acc }
    }
}

impl OsuMap {
    /// The numbers of the query.
    pub open spec fn play(&self) -> Play {
        Play {
            mods: self.mods,
            acc: self.acc,
            miss: self.miss,
            combo: self.combo,
            max_combo: self.max_combo,
        }
    }

    /// The diagnostic line of the query, `acc_text` being its accuracy as
    /// the caller wrote it.
    pub open spec fn debug_line(&self, acc_text: Seq<char>) -> Seq<char> {
        debug_line(
            self.mods as nat,
            self.combo as nat,
            self.miss as nat,
            acc_text,
            self.max_combo as nat,
        )
    }
}

/// A query is taken up when it is there, is valid, and its diagnostic line
/// has a foreign form.
pub open spec fn accepted(map_args: Option<&OsuMap>, acc_text: Seq<char>) -> bool {
    &&& map_args matches Some(query)
    &&& query.valid()
    &&& foreign_bytes(query.debug_line(acc_text)) is Some
}

/// What [`cal_pp`] answers to a query: for a query that is taken up, the
/// parsing stage with the numbers and the diagnostic text of the query, and
/// the order to parse the beatmap at its path; for any other query, the end
/// of the run with invalid input.
pub open spec fn is_start(map_args: Option<&OsuMap>, acc_text: Seq<char>, r: (Pipeline, Step)) -> bool {
    if accepted(map_args, acc_text) {
        &&& r.0 matches Pipeline::Parsing { play, debug_text }
        &&& play == map_args->0.play()
        &&& Some(debug_text@) == foreign_bytes(map_args->0.debug_line(acc_text))
        &&& r.1 matches Step::ParseMap { path }
        &&& Some(path@) == map_args->0.path_text()
    } else {
        r.0 == Pipeline::Finished && r.1 == Step::Fail(BridgeError::InvalidInput)
    }
}

/// Starts the run for a query.
///
/// `None` stands for the null pointer. `acc_text` is the accuracy of the
/// query in decimal notation, which only the driver can write. A query that
/// is taken up sends the driver to parse the beatmap. Any other query fails
/// as invalid input at once, before the beatmap is touched: so does every
/// query whose accuracy lies outside the unit interval, and every query whose
/// combo exceeds its maximum combo.
pub fn cal_pp(map_args: Option<&OsuMap>, acc_text: &str) -> (r: (Pipeline, Step))
    ensures
        is_start(map_args, acc_text@, r),
        map_args matches Some(query) && !in_unit_interval(query.acc) ==> r.1 == Step::Fail(
            BridgeError::InvalidInput,
        ),
        map_args matches Some(query) && query.combo > query.max_combo ==> r.1 == Step::Fail(
            BridgeError::InvalidInput,
        ),
        map_args is None ==> r.1 == Step::Fail(BridgeError::InvalidInput),
{
    let query = match map_args {
        Some(query) => query,
        None => {
            return (Pipeline::Finished, Step::Fail(BridgeError::InvalidInput));
        },
    };
    let path = match query.validate() {
        Ok(path) => path,
        Err(e) => {
            return (Pipeline::Finished, Step::Fail(e));
        },
    };
    let line = debug_text(query.mods, query.combo, query.miss, acc_text, query.max_combo);
    let debug_text = match mk_ptr_string(line) {
        Ok(debug_text) => debug_text,
        Err(e) => {
            return (Pipeline::Finished, Step::Fail(e));
        },
    };
    let play = Play {
        mods: query.mods,
        acc: query.acc,
        miss: query.miss,
        combo: query.combo,
        max_combo: query.max_combo,
    };
    (Pipeline::Parsing { play, debug_text }, Step::ParseMap { path })
}

impl Pipeline {
    /// The reports that the run has gathered hold scores and nothing else.
    pub open spec fn holds_scores(&self) -> bool {
        match *self {
            Pipeline::ScoringFullCombo { actual, .. } => actual.is_score(),
            Pipeline::ScoringMaximum { actual, full_combo, .. } => actual.is_score()
                && full_combo.is_score(),
            _ => true,
        }
    }

    /// Where a run goes on an event, and what it answers.
    ///
    /// The beatmap is parsed first; then the play is scored, then the play
    /// without combo breaks, then the perfect play; then the result is
    /// delivered. A rejected beatmap ends the run with a parse error. A
    /// report that holds anything but scores, a scorer that did not finish
    /// and an event that does not answer the last step end it with an
    /// internal error. A finished run stays finished.
    pub open spec fn next(self, event: Event) -> (Pipeline, Step) {
        match (self, event) {
            (Pipeline::Parsing { play, debug_text }, Event::MapParsed) => (
                Pipeline::ScoringPlay { play, debug_text },
                Step::ScorePlay(play.as_played()),
            ),
            (Pipeline::Parsing { .. }, Event::MapRejected) => (
                Pipeline::Finished,
                Step::Fail(BridgeError::MapParseError),
            ),
            (Pipeline::ScoringPlay { play, debug_text }, Event::Scored(report)) => if report.is_score() {
                (
                    Pipeline::ScoringFullCombo { play, debug_text, actual: report },
                    Step::ScoreFullCombo(play.as_full_combo()),
                )
            } else {
                (Pipeline::Finished, Step::Fail(BridgeError::InternalComputationError))
            },
            (
                Pipeline::ScoringFullCombo { play, debug_text, actual },
                Event::Scored(report),
            ) => if report.is_score() {
                (
                    Pipeline::ScoringMaximum { play, debug_text, actual, full_combo: report },
                    Step::ScoreMaximum { mods: play.mods },
                )
            } else {
                (Pipeline::Finished, Step::Fail(BridgeError::InternalComputationError))
            },
            (
                Pipeline::ScoringMaximum { play, debug_text, actual, full_combo },
                Event::Scored(report),
            ) => if report.is_score() {
                (
                    Pipeline::Finished,
                    Step::Deliver(PPResult::of(actual, full_combo, report, debug_text)),
                )
            } else {
                (Pipeline::Finished, Step::Fail(BridgeError::InternalComputationError))
            },
            _ => (Pipeline::Finished, Step::Fail(BridgeError::InternalComputationError)),
        }
    }

    /// Takes what the driver found and answers with the next step.
    pub fn advance(self, event: Event) -> (r: (Pipeline, Step))
        ensures
            r == self.next(event),
    {
        let failed = (Pipeline::Finished, Step::Fail(BridgeError::InternalComputationError));
        match self {
            Pipeline::Parsing { play, debug_text } => match event {
                Event::MapParsed => {
                    let request = ScoreRequest {
                        mods: play.mods,
                        combo: play.combo,
                        miss: play.miss,
                        acc: play.acc,
                    };
                    (Pipeline::ScoringPlay { play, debug_text }, Step::ScorePlay(request))
                },
                Event::MapRejected => (Pipeline::Finished, Step::Fail(BridgeError::MapParseError)),
                _ => failed,
            },
            Pipeline::ScoringPlay { play, debug_text } => match event {
                Event::Scored(report) => if report.check() {
                    let request = ScoreRequest {
                        mods: play.mods,
                        combo: play.max_combo,
                        miss: play.miss,
                        acc: play.acc,
                    };
                    (
                        Pipeline::ScoringFullCombo { play, debug_text, actual: report },
                        Step::ScoreFullCombo(request),
                    )
                } else {
                    failed
                },
                _ => failed,
            },
            Pipeline::ScoringFullCombo { play, debug_text, actual } => match event {
                Event::Scored(report) => if report.check() {
                    (
                        Pipeline::ScoringMaximum { play, debug_text, actual, full_combo: report },
                        Step::ScoreMaximum { mods: play.mods },
                    )
                } else {
                    failed
                },
                _ => failed,
            },
            Pipeline::ScoringMaximum { play, debug_text, actual, full_combo } => match event {
                Event::Scored(report) => if report.check() {
                    (
                        Pipeline::Finished,
                        Step::Deliver(PPResult::assemble(actual, full_combo, report, debug_text)),
                    )
                } else {
                    failed
                },
                _ => failed,
            },
            Pipeline::Finished => failed,
        }
    }
}

/// A play that reached the maximum combo is scored a second time with the
/// very request of the first: its score without combo breaks is asked for
/// the same modifiers, combo, misses and accuracy.
pub proof fn full_combo_play_is_asked_again(play: Play)
    requires
        play.combo == play.max_combo,
    ensures
        play.as_full_combo() == play.as_played(),
{
}

/// A query is taken up exactly when it is there, is valid, and its accuracy
/// text has a foreign form.
pub proof fn accepted_queries(map_args: Option<&OsuMap>, acc_text: Seq<char>)
    ensures
        accepted(map_args, acc_text) <==> map_args is Some && map_args->0.valid() && foreign_bytes(
            acc_text,
        ) is Some,
{
    if let Some(query) = map_args {
        debug_line_foreign_form(
            query.mods as nat,
            query.combo as nat,
            query.miss as nat,
            acc_text,
            query.max_combo as nat,
        );
    }
}

/// The query and the accuracy text determine the start of a run: two
/// answers to the same query order the same work on the same path and hold
/// the same numbers and the same diagnostic text, or both fail alike.
pub proof fn start_is_determined(
    map_args: Option<&OsuMap>,
    acc_text: Seq<char>,
    first: (Pipeline, Step),
    second: (Pipeline, Step),
)
    requires
        is_start(map_args, acc_text, first),
        is_start(map_args, acc_text, second),
    ensures
        first.0 is Parsing <==> second.0 is Parsing,
        first.0 is Parsing ==> {
            &&& first.0->Parsing_play == second.0->Parsing_play
            &&& first.0->Parsing_debug_text@ == second.0->Parsing_debug_text@
            &&& first.1 is ParseMap
            &&& second.1 is ParseMap
            &&& first.1->path@ == second.1->path@
        },
        !(first.0 is Parsing) ==> first == second,
{
}

/// A run that holds scores goes on to a run that holds scores. The run that
/// [`cal_pp`] starts holds no report yet, so every run that is only moved on
/// by [`Pipeline::advance`] holds scores.
pub proof fn run_keeps_scores(run: Pipeline, event: Event)
    requires
        run.holds_scores(),
    ensures
        run.next(event).0.holds_scores(),
{
}

/// Every result that such a run delivers holds scores: each of its numbers,
/// the score without combo breaks and the best score among them, is a
/// number from zero upwards.
pub proof fn delivered_result_is_score(run: Pipeline, event: Event)
    requires
        run.holds_scores(),
    ensures
        run.next(event).1 matches Step::Deliver(result) ==> result.is_score(),
{
    if let Pipeline::ScoringMaximum { play, debug_text, actual, full_combo } = run {
        if let Event::Scored(report) = event {
            if report.is_score() {
                assembled_result_is_score(actual, full_combo, report, debug_text);
            }
        }
    }
}

/// A run ends with the step that delivers or fails, and with no other.
pub proof fn run_ends_with_its_answer(run: Pipeline, event: Event)
    ensures
        run.next(event).0 is Finished <==> run.next(event).1 is Deliver || run.next(event).1 is Fail,
{
}

/// Whatever the beatmap, a rejected one ends the run with a parse error.
pub proof fn rejected_map_fails(play: Play, debug_text: ForeignString)
    ensures
        (Pipeline::Parsing { play, debug_text }).next(Event::MapRejected) == (
            Pipeline::Finished,
            Step::Fail(BridgeError::MapParseError),
        ),
{
}

/// The whole of a run that goes well. After the beatmap is parsed the play
/// is scored; on its report the play without combo breaks; on that report
/// the perfect play; and on the last report the result is delivered, made
/// of the three reports and the diagnostic text of the query.
pub proof fn complete_run(
    play: Play,
    debug_text: ForeignString,
    actual: ScoreReport,
    full_combo: ScoreReport,
    maximum: ScoreReport,
)
    requires
        actual.is_score(),
        full_combo.is_score(),
        maximum.is_score(),
    ensures
        ({
            let parsed = (Pipeline::Parsing { play, debug_text }).next(Event::MapParsed);
            let played = parsed.0.next(Event::Scored(actual));
            let combined = played.0.next(Event::Scored(full_combo));
            let done = combined.0.next(Event::Scored(maximum));
            &&& parsed.1 == Step::ScorePlay(play.as_played())
            &&& played.1 == Step::ScoreFullCombo(play.as_full_combo())
            &&& combined.1 == Step::ScoreMaximum { mods: play.mods }
            &&& done.1 == Step::Deliver(PPResult::of(actual, full_combo, maximum, debug_text))
            &&& done.0 == Pipeline::Finished
            &&& PPResult::of(actual, full_combo, maximum, debug_text).is_score()
        }),
{
    assembled_result_is_score(actual, full_combo, maximum, debug_text);
}

} // verus!
