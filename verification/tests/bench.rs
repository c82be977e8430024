use shogi_perft::bench::{measure, Variant};
use shogi_perft::report::{throughput, ReportError};
use shogi_perft::side::Side;
use usiagent::protocol::PositionParser;
use usiagent::rule::State;
use usiagent::shogi::{MochigomaCollections, Teban};

fn seeded(text: &str) -> (Side, State, MochigomaCollections) {
    let fields: Vec<&str> = text.split(' ').collect();
    let (teban, banmen, mc, _, _) = PositionParser::new()
        .parse(&fields)
        .expect("the position is well formed")
        .extract();
    let side = match teban {
        Teban::Sente => Side::First,
        Teban::Gote => Side::Second,
    };
    (side, State::new(banmen), mc)
}

fn counted(variant: Variant, text: &str, depth: u32) -> Option<usize> {
    let (side, state, mc) = seeded(text);
    measure(variant, side, &state, &mc, depth).map(|m| m.count)
}

#[test]
fn each_variant_reports_its_count() {
    let text = "sfen 4k4/9/4G4/9/9/9/9/9/4K4 b - 1";
    assert_eq!(counted(Variant::LegalMoves, text, 0), Some(11));
    assert_eq!(counted(Variant::WinOnly, text, 0), Some(0));
    assert_eq!(counted(Variant::CheckOnly, text, 0), Some(3));
    assert_eq!(counted(Variant::EnteringKing, text, 0), Some(11));
    assert_eq!(counted(Variant::LegalMoves, text, 2), Some(632));
    assert_eq!(counted(Variant::WinOnly, text, 2), Some(27));
    assert_eq!(counted(Variant::CheckOnly, text, 2), Some(75));
    assert_eq!(counted(Variant::EnteringKing, text, 2), Some(632));
}

#[test]
fn a_run_from_the_start_position() {
    assert_eq!(counted(Variant::LegalMoves, "startpos", 0), Some(30));
    assert_eq!(counted(Variant::LegalMoves, "startpos", 2), Some(25470));
    assert_eq!(counted(Variant::WinOnly, "startpos", 2), Some(0));
    assert_eq!(counted(Variant::CheckOnly, "startpos", 2), Some(48));
    assert_eq!(counted(Variant::EnteringKing, "startpos", 2), Some(25470));
}

#[test]
fn a_run_from_a_midgame_position() {
    let text = "sfen l6nl/5+P1gk/2np1S3/p1p4Pp/3P2Sp1/1PPb2P1P/P5GS1/R8/LN4bKL w RGgsn5p 1";
    assert_eq!(counted(Variant::LegalMoves, text, 1), Some(30355));
    assert_eq!(counted(Variant::WinOnly, text, 1), Some(2));
    assert_eq!(counted(Variant::CheckOnly, text, 1), Some(838));
    assert_eq!(counted(Variant::EnteringKing, text, 1), Some(30355));
}

#[test]
fn a_timed_run_counts_the_seed_and_all_that_lies_below() {
    // Beside the king the gold takes it: one winning move at the seed, none
    // one ply below, twenty-nine two plies below.
    let text = "sfen 4k4/4G4/9/9/9/9/9/9/4K4 b - 1";
    assert_eq!(counted(Variant::WinOnly, text, 0), Some(1));
    assert_eq!(counted(Variant::WinOnly, text, 1), Some(1));
    assert_eq!(counted(Variant::WinOnly, text, 2), Some(30));
    assert_eq!(counted(Variant::CheckOnly, text, 0), Some(1));
    assert_eq!(counted(Variant::CheckOnly, text, 2), Some(46));
    let text = "sfen 4k4/9/4G4/9/9/9/9/9/4K4 b - 1";
    assert_eq!(counted(Variant::CheckOnly, text, 1), Some(3));
}

#[test]
fn a_timed_run_without_queries_takes_no_time() {
    let (side, state, mc) = seeded("startpos");
    for variant in [Variant::WinOnly, Variant::CheckOnly] {
        let measured = measure(variant, side, &state, &mc, 0).expect("the count fits");
        assert_eq!(measured.elapsed_nanos, 0);
        assert_eq!(throughput(measured), Err(ReportError::NoTimeElapsed));
    }
    let (side, state, mc) = seeded("sfen 8k/9/9/9/9/9/9/9/9 b - 1");
    for variant in [Variant::WinOnly, Variant::CheckOnly] {
        let measured = measure(variant, side, &state, &mc, 3).expect("the count fits");
        assert_eq!(measured.count, 0);
        assert_eq!(measured.elapsed_nanos, 0);
    }
}

#[test]
fn a_measurement_gives_its_figures() {
    let (side, state, mc) = seeded("startpos");
    let measured = measure(Variant::LegalMoves, side, &state, &mc, 2).expect("the count fits");
    assert_eq!(measured.count, 25470);
    match throughput(measured) {
        Ok(figures) => {
            assert!(measured.elapsed_nanos > 0);
            assert_eq!(figures.count, 25470);
            assert_eq!(figures.seconds, measured.elapsed_nanos / 1_000_000_000);
            assert_eq!(figures.millis, measured.elapsed_nanos % 1_000_000_000 / 1_000_000);
            assert_eq!(
                figures.per_second,
                25470 * 1_000_000_000 / measured.elapsed_nanos,
            );
        }
        Err(e) => {
            assert_eq!(e, ReportError::NoTimeElapsed);
            assert_eq!(measured.elapsed_nanos, 0);
        }
    }
}
