use shogi_perft::side::Side;
use shogi_perft::traversal::{
    count_query, process_moves_with_oute_only_moves, process_moves_with_query,
    process_moves_with_win_only_moves,
};
use shogi_perft::tree::Query;
use usiagent::protocol::PositionParser;
use usiagent::rule::{LegalMove, Rule, State};
use usiagent::shogi::{MochigomaCollections, Teban};

const START: &str = "startpos";
const MIDGAME: &str = "sfen l6nl/5+P1gk/2np1S3/p1p4Pp/3P2Sp1/1PPb2P1P/P5GS1/R8/LN4bKL w RGgsn5p 1";
const GOLD_BESIDE_KING: &str = "sfen 4k4/4G4/9/9/9/9/9/9/4K4 b - 1";
const KING_AND_GOLD: &str = "sfen 4k4/9/4G4/9/9/9/9/9/4K4 b - 1";
const NO_PIECES: &str = "sfen 8k/9/9/9/9/9/9/9/9 b - 1";

fn mover(teban: Teban) -> Side {
    match teban {
        Teban::Sente => Side::First,
        Teban::Gote => Side::Second,
    }
}

fn seed(text: &str) -> (Teban, State, MochigomaCollections, Vec<LegalMove>) {
    let fields: Vec<&str> = text.split(' ').collect();
    let (teban, banmen, mc, _, _) = PositionParser::new()
        .parse(&fields)
        .expect("the position is well formed")
        .extract();
    let state = State::new(banmen);
    let mvs = Rule::legal_moves_all(teban, &state, &mc);
    (teban, state, mc, mvs)
}

fn asked(query: Query, teban: Teban, state: &State, mc: &MochigomaCollections) -> usize {
    match query {
        Query::WinOnly => Rule::win_only_moves(teban, state).len(),
        Query::CheckOnly => Rule::oute_only_moves_all(teban, state, mc).len(),
    }
}

/// The query's count at every position within `depth` plies below the given
/// one, asked of the engine one position at a time.
fn tally_by_hand(
    query: Query,
    teban: Teban,
    state: &State,
    mc: &MochigomaCollections,
    depth: u32,
) -> usize {
    let mut total = 0;
    if depth > 0 {
        for m in Rule::legal_moves_all(teban, state, mc) {
            let (next, next_mc, _) =
                Rule::apply_move_none_check(state, teban, mc, m.to_applied_move());
            total += asked(query, teban.opposite(), &next, &next_mc);
            total += tally_by_hand(query, teban.opposite(), &next, &next_mc, depth - 1);
        }
    }
    total
}

#[test]
fn the_queries_count_what_the_engine_finds() {
    let (teban, state, mc, _) = seed(GOLD_BESIDE_KING);
    assert_eq!(count_query(Query::WinOnly, mover(teban), &state, &mc), 1);
    assert_eq!(count_query(Query::CheckOnly, mover(teban), &state, &mc), 1);
    let (teban, state, mc, _) = seed(KING_AND_GOLD);
    assert_eq!(count_query(Query::WinOnly, mover(teban), &state, &mc), 0);
    assert_eq!(count_query(Query::CheckOnly, mover(teban), &state, &mc), 3);
    let (teban, state, mc, _) = seed(MIDGAME);
    assert_eq!(count_query(Query::WinOnly, mover(teban), &state, &mc), 0);
    assert_eq!(count_query(Query::CheckOnly, mover(teban), &state, &mc), 8);
}

#[test]
fn at_depth_zero_count_and_time_come_back_as_given() {
    let (teban, state, mc, mvs) = seed(MIDGAME);
    assert_eq!(
        process_moves_with_win_only_moves(mover(teban), &state, &mc, &mvs, 0, 17, 123_456),
        Some((17, 123_456)),
    );
    assert_eq!(
        process_moves_with_oute_only_moves(mover(teban), &state, &mc, &mvs, 0, 0, 0),
        Some((0, 0)),
    );
    assert_eq!(
        process_moves_with_oute_only_moves(mover(teban), &state, &mc, &mvs, 0, usize::MAX, u128::MAX),
        Some((usize::MAX, u128::MAX)),
    );
}

#[test]
fn without_moves_the_count_comes_back_at_depth_zero_only() {
    let (teban, state, mc, mvs) = seed(NO_PIECES);
    assert!(mvs.is_empty());
    assert_eq!(
        process_moves_with_win_only_moves(mover(teban), &state, &mc, &mvs, 0, 5, 99),
        Some((5, 99)),
    );
    for depth in 1..4 {
        assert_eq!(
            process_moves_with_win_only_moves(mover(teban), &state, &mc, &mvs, depth, 5, 99),
            Some((0, 99)),
        );
        assert_eq!(
            process_moves_with_oute_only_moves(mover(teban), &state, &mc, &mvs, depth, 6, 98),
            Some((0, 98)),
        );
    }
}

#[test]
fn an_empty_list_of_moves_gives_no_tally_above_depth_zero() {
    let (teban, state, mc, _) = seed(START);
    let none: Vec<LegalMove> = Vec::new();
    assert_eq!(
        process_moves_with_win_only_moves(mover(teban), &state, &mc, &none, 1, 7, 1234),
        Some((0, 1234)),
    );
    let (_, state, mc, _) = seed(START);
    assert_eq!(
        process_moves_with_oute_only_moves(Side::Second, &state, &mc, &none, 2, 5, 4321),
        Some((0, 4321)),
    );
}

#[test]
fn winning_moves_are_tallied_at_every_position_below() {
    let (teban, state, mc, mvs) = seed(GOLD_BESIDE_KING);
    let tally = |depth: u32| {
        process_moves_with_win_only_moves(mover(teban), &state, &mc, &mvs, depth, 1, 0)
            .map(|(count, _)| count)
    };
    assert_eq!(tally(0), Some(1));
    assert_eq!(tally(1), Some(0));
    assert_eq!(tally(2), Some(29));
    let (teban, state, mc, mvs) = seed(KING_AND_GOLD);
    let tally = |depth: u32| {
        process_moves_with_win_only_moves(mover(teban), &state, &mc, &mvs, depth, 0, 0)
            .map(|(count, _)| count)
    };
    assert_eq!(tally(1), Some(0));
    assert_eq!(tally(2), Some(27));
    let (teban, state, mc, mvs) = seed(MIDGAME);
    let tally = |depth: u32| {
        process_moves_with_win_only_moves(mover(teban), &state, &mc, &mvs, depth, 0, 0)
            .map(|(count, _)| count)
    };
    assert_eq!(tally(1), Some(2));
}

#[test]
fn checking_moves_are_tallied_at_every_position_below() {
    let (teban, state, mc, mvs) = seed(KING_AND_GOLD);
    let tally = |depth: u32| {
        process_moves_with_oute_only_moves(mover(teban), &state, &mc, &mvs, depth, 3, 0)
            .map(|(count, _)| count)
    };
    assert_eq!(tally(0), Some(3));
    assert_eq!(tally(1), Some(0));
    assert_eq!(tally(2), Some(72));
    let (teban, state, mc, mvs) = seed(START);
    let tally = |depth: u32| {
        process_moves_with_oute_only_moves(mover(teban), &state, &mc, &mvs, depth, 0, 0)
            .map(|(count, _)| count)
    };
    assert_eq!(tally(1), Some(0));
    assert_eq!(tally(2), Some(48));
    let (teban, state, mc, mvs) = seed(MIDGAME);
    let tally = |depth: u32| {
        process_moves_with_oute_only_moves(mover(teban), &state, &mc, &mvs, depth, 8, 0)
            .map(|(count, _)| count)
    };
    assert_eq!(tally(1), Some(830));
}

#[test]
fn at_depth_one_the_tally_is_the_sum_over_the_positions_the_moves_lead_to() {
    for text in [START, GOLD_BESIDE_KING, KING_AND_GOLD, MIDGAME] {
        let (teban, state, mc, mvs) = seed(text);
        let mut wins = 0;
        let mut checks = 0;
        for m in &mvs {
            let (next, next_mc, _) =
                Rule::apply_move_none_check(&state, teban, &mc, m.to_applied_move());
            wins += Rule::win_only_moves(teban.opposite(), &next).len();
            checks += Rule::oute_only_moves_all(teban.opposite(), &next, &next_mc).len();
        }
        assert_eq!(
            process_moves_with_win_only_moves(mover(teban), &state, &mc, &mvs, 1, 11, 0)
                .map(|(count, _)| count),
            Some(wins),
        );
        assert_eq!(
            process_moves_with_oute_only_moves(mover(teban), &state, &mc, &mvs, 1, 11, 0)
                .map(|(count, _)| count),
            Some(checks),
        );
    }
}

#[test]
fn the_count_given_plays_no_part_above_depth_zero() {
    let (teban, state, mc, mvs) = seed(KING_AND_GOLD);
    for given in [0, 1, 3, 1000, usize::MAX] {
        for (depth, checks, wins) in [(1, 0, 0), (2, 72, 27)] {
            assert_eq!(
                process_moves_with_oute_only_moves(mover(teban), &state, &mc, &mvs, depth, given, 0)
                    .map(|(count, _)| count),
                Some(checks),
            );
            assert_eq!(
                process_moves_with_win_only_moves(mover(teban), &state, &mc, &mvs, depth, given, 0)
                    .map(|(count, _)| count),
                Some(wins),
            );
        }
    }
}

#[test]
fn only_the_moves_that_the_query_selects_are_tallied() {
    // From the start position no move gives check and none takes a king
    // within two plies, though every position there has moves.
    let (teban, state, mc, mvs) = seed(START);
    assert_eq!(mvs.len(), 30);
    assert_eq!(
        process_moves_with_oute_only_moves(mover(teban), &state, &mc, &mvs, 1, 9, 0)
            .map(|(count, _)| count),
        Some(0),
    );
    assert_eq!(
        process_moves_with_win_only_moves(mover(teban), &state, &mc, &mvs, 2, 9, 0)
            .map(|(count, _)| count),
        Some(0),
    );
}

#[test]
fn the_tally_is_what_the_engine_finds_position_by_position() {
    for text in [START, GOLD_BESIDE_KING, KING_AND_GOLD] {
        let (teban, state, mc, mvs) = seed(text);
        for query in [Query::WinOnly, Query::CheckOnly] {
            for depth in 1..3 {
                let given = asked(query, teban, &state, &mc);
                let tally = process_moves_with_query(
                    query,
                    mover(teban),
                    &state,
                    &mc,
                    &mvs,
                    depth,
                    given,
                    0,
                )
                .map(|(count, _)| count);
                assert_eq!(tally, Some(tally_by_hand(query, teban, &state, &mc, depth)));
            }
        }
    }
}

#[test]
fn the_named_traversals_are_the_two_queries() {
    let (teban, state, mc, mvs) = seed(KING_AND_GOLD);
    let count =
        |r: Option<(usize, u128)>| r.map(|(count, _)| count);
    assert_eq!(
        count(process_moves_with_win_only_moves(mover(teban), &state, &mc, &mvs, 2, 0, 0)),
        count(process_moves_with_query(Query::WinOnly, mover(teban), &state, &mc, &mvs, 2, 0, 0)),
    );
    assert_eq!(
        count(process_moves_with_oute_only_moves(mover(teban), &state, &mc, &mvs, 2, 3, 0)),
        count(process_moves_with_query(Query::CheckOnly, mover(teban), &state, &mc, &mvs, 2, 3, 0)),
    );
    assert_ne!(
        count(process_moves_with_win_only_moves(mover(teban), &state, &mc, &mvs, 2, 0, 0)),
        count(process_moves_with_oute_only_moves(mover(teban), &state, &mc, &mvs, 2, 0, 0)),
    );
}

#[test]
fn the_time_never_falls_below_the_time_given() {
    let (teban, state, mc, mvs) = seed(KING_AND_GOLD);
    for given in [0u128, 1, 1_000_000_000, u128::MAX - 1, u128::MAX] {
        for depth in 0..3 {
            let (_, time) =
                process_moves_with_win_only_moves(mover(teban), &state, &mc, &mvs, depth, 0, given)
                    .expect("the tally fits");
            assert!(time >= given);
            let (_, time) =
                process_moves_with_oute_only_moves(mover(teban), &state, &mc, &mvs, depth, 3, given)
                    .expect("the tally fits");
            assert!(time >= given);
        }
    }
}

#[test]
fn a_full_accumulator_stays_full() {
    let (teban, state, mc, mvs) = seed(KING_AND_GOLD);
    assert_eq!(
        process_moves_with_oute_only_moves(mover(teban), &state, &mc, &mvs, 2, 3, u128::MAX),
        Some((72, u128::MAX)),
    );
}

#[test]
fn the_order_of_the_moves_does_not_change_the_tally() {
    let (teban, state, mc, mvs) = seed(KING_AND_GOLD);
    let mut reversed = mvs.clone();
    reversed.reverse();
    assert_eq!(
        process_moves_with_oute_only_moves(mover(teban), &state, &mc, &reversed, 2, 3, 0)
            .map(|(count, _)| count),
        Some(72),
    );
    assert_eq!(
        process_moves_with_win_only_moves(mover(teban), &state, &mc, &reversed, 2, 0, 0)
            .map(|(count, _)| count),
        Some(27),
    );
}

#[test]
fn at_depth_zero_any_position_and_any_moves_will_do() {
    // The moves of one position handed in with another: at depth 0 nothing
    // is played, and count and time come back.
    let (_, _, _, mvs) = seed(MIDGAME);
    let (teban, state, mc, _) = seed(START);
    assert_eq!(
        process_moves_with_win_only_moves(mover(teban), &state, &mc, &mvs, 0, 4, 44),
        Some((4, 44)),
    );
    assert_eq!(
        process_moves_with_oute_only_moves(mover(teban), &state, &mc, &mvs, 0, 6, 66),
        Some((6, 66)),
    );
}
