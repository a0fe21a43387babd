use pp_bridge::error::BridgeError;
use pp_bridge::pipeline::{cal_pp, Event, Pipeline, ScoreRequest, Step};
use pp_bridge::query::OsuMap;
use pp_bridge::result::{return_obj, Breakdown, PPResult, ScoreReport};

fn query(path: &str, mods: u32, acc: f64, miss: usize, combo: usize, max_combo: usize) -> OsuMap {
    let mut buf = path.as_bytes().to_vec();
    buf.push(0);
    OsuMap { path: Some(buf), mods, acc: acc.to_bits(), miss, combo, max_combo }
}

fn start(q: &OsuMap) -> (Pipeline, Step) {
    let acc_text = format!("{}", f64::from_bits(q.acc));
    cal_pp(Some(q), &acc_text)
}

fn osu_report(pp: f64, stars: f64, acc: f64, aim: f64, speed: f64) -> ScoreReport {
    ScoreReport {
        pp: pp.to_bits(),
        stars: stars.to_bits(),
        breakdown: Some(Breakdown {
            pp_acc: acc.to_bits(),
            pp_aim: aim.to_bits(),
            pp_speed: speed.to_bits(),
        }),
    }
}

fn plain_report(pp: f64, stars: f64) -> ScoreReport {
    ScoreReport { pp: pp.to_bits(), stars: stars.to_bits(), breakdown: None }
}

fn failed() -> (Pipeline, Step) {
    (Pipeline::Finished, Step::Fail(BridgeError::InternalComputationError))
}

#[test]
fn valid_query_is_sent_to_the_parser() {
    let q = query("maps/1.osu", 24, 0.992, 2, 1234, 1500);
    let (run, step) = start(&q);
    assert_eq!(step, Step::ParseMap { path: String::from("maps/1.osu") });
    match run {
        Pipeline::Parsing { play, debug_text } => {
            assert_eq!(play.mods, 24);
            assert_eq!(play.acc, 0.992f64.to_bits());
            assert_eq!(play.miss, 2);
            assert_eq!(play.combo, 1234);
            assert_eq!(play.max_combo, 1500);
            assert_eq!(
                debug_text.as_bytes_with_nul(),
                &b"mods 24 combo 1234 miss 2 acc 0.992 max_combo 1500\0"[..]
            );
        }
        other => panic!("{:?}", other),
    }
}

#[test]
fn absent_query_is_invalid_input() {
    assert_eq!(cal_pp(None, "1"), (Pipeline::Finished, Step::Fail(BridgeError::InvalidInput)));
}

#[test]
fn accuracy_outside_the_unit_interval_is_invalid_input() {
    for acc in [1.0000000000000002, 99.2, 100.0, -0.5, -5.0e-324, f64::INFINITY, f64::NEG_INFINITY, f64::NAN] {
        let q = query("maps/1.osu", 0, acc, 0, 10, 10);
        assert_eq!(start(&q), (Pipeline::Finished, Step::Fail(BridgeError::InvalidInput)), "{:?}", acc);
    }
}

#[test]
fn accuracy_at_the_ends_of_the_interval_is_taken() {
    for acc in [0.0, -0.0, 5.0e-324, 0.5, 1.0] {
        let q = query("maps/1.osu", 0, acc, 0, 10, 10);
        let (_, step) = start(&q);
        assert_eq!(step, Step::ParseMap { path: String::from("maps/1.osu") }, "{:?}", acc);
    }
}

#[test]
fn combo_above_the_maximum_is_invalid_input() {
    let q = query("maps/1.osu", 0, 1.0, 0, 11, 10);
    assert_eq!(start(&q), (Pipeline::Finished, Step::Fail(BridgeError::InvalidInput)));
    let q = query("maps/1.osu", 0, 1.0, 0, usize::MAX, 0);
    assert_eq!(start(&q), (Pipeline::Finished, Step::Fail(BridgeError::InvalidInput)));
}

#[test]
fn unreadable_path_is_invalid_input() {
    let mut q = query("maps/1.osu", 0, 1.0, 0, 10, 10);
    q.path = None;
    assert_eq!(start(&q), (Pipeline::Finished, Step::Fail(BridgeError::InvalidInput)));
    q.path = Some(vec![0x6d, 0x61, 0x70]);
    assert_eq!(start(&q), (Pipeline::Finished, Step::Fail(BridgeError::InvalidInput)));
    q.path = Some(vec![0xff, 0xfe, 0x00]);
    assert_eq!(start(&q), (Pipeline::Finished, Step::Fail(BridgeError::InvalidInput)));
}

#[test]
fn accuracy_text_with_a_nul_is_invalid_input() {
    let q = query("maps/1.osu", 0, 1.0, 0, 10, 10);
    assert_eq!(cal_pp(Some(&q), "1\0"), (Pipeline::Finished, Step::Fail(BridgeError::InvalidInput)));
}

#[test]
fn validate_reads_the_path_of_a_valid_query() {
    let q = query("a/b.osu", 1, 0.25, 3, 4, 5);
    assert_eq!(q.validate(), Ok(String::from("a/b.osu")));
    let q = query("a/b.osu", 1, 1.25, 3, 4, 5);
    assert_eq!(q.validate(), Err(BridgeError::InvalidInput));
    let q = query("a/b.osu", 1, 0.25, 3, 6, 5);
    assert_eq!(q.validate(), Err(BridgeError::InvalidInput));
}

#[test]
fn rejected_map_is_a_parse_error() {
    let q = query("maps/none.osu", 0, 1.0, 0, 10, 10);
    let (run, _) = start(&q);
    assert_eq!(
        run.advance(Event::MapRejected),
        (Pipeline::Finished, Step::Fail(BridgeError::MapParseError))
    );
}

#[test]
fn run_asks_for_play_full_combo_and_maximum_in_turn() {
    let q = query("maps/1.osu", 72, 0.985, 1, 900, 1200);
    let (run, _) = start(&q);
    let (run, step) = run.advance(Event::MapParsed);
    assert_eq!(
        step,
        Step::ScorePlay(ScoreRequest { mods: 72, combo: 900, miss: 1, acc: 0.985f64.to_bits() })
    );
    let (run, step) = run.advance(Event::Scored(osu_report(250.5, 6.1, 80.0, 100.25, 70.25)));
    assert_eq!(
        step,
        Step::ScoreFullCombo(ScoreRequest { mods: 72, combo: 1200, miss: 1, acc: 0.985f64.to_bits() })
    );
    let (run, step) = run.advance(Event::Scored(osu_report(300.0, 6.25, 80.0, 140.0, 80.0)));
    assert_eq!(step, Step::ScoreMaximum { mods: 72 });
    let (run, step) = run.advance(Event::Scored(osu_report(410.0, 6.25, 120.0, 170.0, 120.0)));
    assert_eq!(run, Pipeline::Finished);
    match step {
        Step::Deliver(result) => {
            assert_eq!(f64::from_bits(result.pp), 250.5);
            assert_eq!(f64::from_bits(result.pp_acc), 80.0);
            assert_eq!(f64::from_bits(result.pp_aim), 100.25);
            assert_eq!(f64::from_bits(result.pp_speed), 70.25);
            assert_eq!(f64::from_bits(result.pp_fc), 300.0);
            assert_eq!(f64::from_bits(result.max_pp), 410.0);
            assert_eq!(f64::from_bits(result.map_star), 6.25);
            assert_eq!(
                result.debug_text.as_bytes_with_nul(),
                &b"mods 72 combo 900 miss 1 acc 0.985 max_combo 1200\0"[..]
            );
        }
        other => panic!("{:?}", other),
    }
}

#[test]
fn full_combo_play_is_asked_with_the_same_request_twice() {
    let q = query("maps/1.osu", 8, 1.0, 0, 1200, 1200);
    let (run, _) = start(&q);
    let (run, first) = run.advance(Event::MapParsed);
    let (_, second) = run.advance(Event::Scored(plain_report(1.0, 1.0)));
    let expected = ScoreRequest { mods: 8, combo: 1200, miss: 0, acc: 1.0f64.to_bits() };
    assert_eq!(first, Step::ScorePlay(expected));
    assert_eq!(second, Step::ScoreFullCombo(expected));
}

#[test]
fn ruleset_without_parts_gets_zeros() {
    let q = query("maps/taiko.osu", 0, 0.97, 4, 300, 420);
    let (run, _) = start(&q);
    let (run, _) = run.advance(Event::MapParsed);
    let (run, _) = run.advance(Event::Scored(plain_report(120.0, 4.5)));
    let (run, _) = run.advance(Event::Scored(plain_report(150.0, 4.75)));
    let (_, step) = run.advance(Event::Scored(plain_report(200.0, 4.75)));
    match step {
        Step::Deliver(result) => {
            assert_eq!(f64::from_bits(result.pp), 120.0);
            assert_eq!(result.pp_acc, 0);
            assert_eq!(result.pp_aim, 0);
            assert_eq!(result.pp_speed, 0);
            assert_eq!(f64::from_bits(result.pp_fc), 150.0);
            assert_eq!(f64::from_bits(result.max_pp), 200.0);
            assert_eq!(f64::from_bits(result.map_star), 4.75);
        }
        other => panic!("{:?}", other),
    }
}

#[test]
fn decomposition_is_unsupported_without_parts() {
    assert_eq!(plain_report(1.0, 1.0).decomposition(), Err(BridgeError::UnsupportedRuleset));
    let parts = Breakdown { pp_acc: 1.0f64.to_bits(), pp_aim: 2.0f64.to_bits(), pp_speed: 3.0f64.to_bits() };
    assert_eq!(osu_report(6.5, 1.0, 1.0, 2.0, 3.0).decomposition(), Ok(parts));
}

#[test]
fn report_that_is_no_score_is_an_internal_error() {
    for bad in [f64::NAN, -1.0, f64::NEG_INFINITY, -5.0e-324] {
        let q = query("maps/1.osu", 0, 1.0, 0, 10, 10);
        let (run, _) = start(&q);
        let (run, _) = run.advance(Event::MapParsed);
        assert_eq!(run.advance(Event::Scored(plain_report(bad, 1.0))), failed(), "{:?}", bad);

        let (run, _) = start(&q);
        let (run, _) = run.advance(Event::MapParsed);
        let (run, _) = run.advance(Event::Scored(plain_report(1.0, 1.0)));
        assert_eq!(run.advance(Event::Scored(plain_report(1.0, bad))), failed(), "{:?}", bad);

        let (run, _) = start(&q);
        let (run, _) = run.advance(Event::MapParsed);
        let (run, _) = run.advance(Event::Scored(plain_report(1.0, 1.0)));
        let (run, _) = run.advance(Event::Scored(plain_report(1.0, 1.0)));
        assert_eq!(run.advance(Event::Scored(osu_report(1.0, 1.0, 1.0, bad, 1.0))), failed(), "{:?}", bad);
    }
}

#[test]
fn check_takes_scores_and_nothing_else() {
    assert!(plain_report(0.0, 0.0).check());
    assert!(plain_report(-0.0, 7.5).check());
    assert!(osu_report(5.0, 1.0, 1.0, 2.0, 2.0).check());
    assert!(!plain_report(f64::NAN, 0.0).check());
    assert!(!plain_report(0.0, -0.25).check());
    assert!(!osu_report(5.0, 1.0, -1.0, 2.0, 2.0).check());
    assert!(!osu_report(5.0, 1.0, 1.0, f64::NAN, 2.0).check());
    assert!(!osu_report(5.0, 1.0, 1.0, 2.0, f64::NEG_INFINITY).check());
}

#[test]
fn failing_scorer_is_an_internal_error() {
    let q = query("maps/1.osu", 0, 1.0, 0, 10, 10);
    let (run, _) = start(&q);
    let (run, _) = run.advance(Event::MapParsed);
    assert_eq!(run.advance(Event::ScorerFailed), failed());
}

#[test]
fn event_that_answers_no_step_is_an_internal_error() {
    let q = query("maps/1.osu", 0, 1.0, 0, 10, 10);
    let (run, _) = start(&q);
    assert_eq!(run.advance(Event::Scored(plain_report(1.0, 1.0))), failed());
    let (run, _) = start(&q);
    let (run, _) = run.advance(Event::MapParsed);
    assert_eq!(run.advance(Event::MapParsed), failed());
    let (run, _) = start(&q);
    let (run, _) = run.advance(Event::MapParsed);
    assert_eq!(run.advance(Event::MapRejected), failed());
}

#[test]
fn finished_run_stays_finished() {
    for event in [Event::MapParsed, Event::MapRejected, Event::ScorerFailed, Event::Scored(plain_report(1.0, 1.0))] {
        assert_eq!(Pipeline::Finished.advance(event), failed());
    }
}

#[test]
fn same_inputs_give_the_same_run() {
    let q = query("maps/1.osu", 24, 0.75, 3, 500, 800);
    let events = [
        Event::MapParsed,
        Event::Scored(osu_report(100.0, 5.0, 30.0, 40.0, 30.0)),
        Event::Scored(osu_report(130.0, 5.0, 30.0, 60.0, 40.0)),
        Event::Scored(osu_report(220.0, 5.0, 70.0, 80.0, 70.0)),
    ];
    let mut first = vec![start(&q)];
    let mut second = vec![start(&q)];
    for event in events {
        let (run, _) = first.pop().unwrap();
        first.push(run.advance(event));
        let (run, _) = second.pop().unwrap();
        second.push(run.advance(event));
        assert_eq!(first, second);
    }
    assert!(matches!(first[0].1, Step::Deliver(_)));
}

#[test]
fn assemble_takes_each_number_from_its_report() {
    let text = pp_bridge::marshal::mk_ptr_str("t").unwrap();
    let result = PPResult::assemble(
        osu_report(1.0, 2.0, 3.0, 4.0, 5.0),
        osu_report(6.0, 7.0, 8.0, 9.0, 10.0),
        osu_report(11.0, 12.0, 13.0, 14.0, 15.0),
        text,
    );
    assert_eq!(f64::from_bits(result.pp), 1.0);
    assert_eq!(f64::from_bits(result.pp_acc), 3.0);
    assert_eq!(f64::from_bits(result.pp_aim), 4.0);
    assert_eq!(f64::from_bits(result.pp_speed), 5.0);
    assert_eq!(f64::from_bits(result.pp_fc), 6.0);
    assert_eq!(f64::from_bits(result.max_pp), 11.0);
    assert_eq!(f64::from_bits(result.map_star), 7.0);
    assert_eq!(result.debug_text.as_bytes_with_nul(), &b"t\0"[..]);
}

#[test]
fn return_obj_is_all_zero_and_says_ok() {
    let sample = return_obj();
    assert_eq!(f64::from_bits(sample.pp), 0.0);
    assert_eq!(sample.pp, 0);
    assert_eq!(sample.pp_acc, 0);
    assert_eq!(sample.pp_aim, 0);
    assert_eq!(sample.pp_speed, 0);
    assert_eq!(sample.pp_fc, 0);
    assert_eq!(sample.max_pp, 0);
    assert_eq!(sample.map_star, 0);
    assert_eq!(sample.debug_text.as_bytes_with_nul(), &b"OK\0"[..]);
}
