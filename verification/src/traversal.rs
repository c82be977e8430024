//! The traversals: each walks the game tree below a position to a given
//! depth and counts moves on the way.

use vstd::prelude::*;
use crate::clock::{add_sample, clock_now, nanos_since};
use crate::oracle::{
    apply_move, generated_moves, is_generated, is_nyugyoku_win, legal_moves, oute_only_moves_all,
    playable, playable_board, to_applied_move, win_only_moves,
};
use crate::side::Side;
use crate::tree::{
    all_generated, child, enumerated, leaf_count, leaves_below, lemma_sum_over_prefix,
    lemma_sum_over_step, queried, query_count, query_tally, reached, reached_below, sum_over,
    tally_below, Query,
};
use usiagent::rule::{LegalMove, State};
use usiagent::shogi::MochigomaCollections;

verus! {

/// Whether `result` is what a count of `exact` moves comes to in a `usize`:
/// the count itself where it fits, and nothing where it does not.
pub open spec fn counts(result: Option<usize>, exact: nat) -> bool {
    match result {
        Some(n) => n == exact,
        None => exact > usize::MAX,
    }
}

/// Asks the engine for the moves of `side` in a position.
pub(crate) fn generate(side: Side, state: &State, hands: &MochigomaCollections) -> (mvs: Vec<LegalMove>)
    requires
        playable(side, *state, *hands),
    ensures
        mvs@ == generated_moves(side, *state, *hands),
        all_generated(side, *state, *hands, mvs@),
{
    let mvs = legal_moves(side, state, hands);
    assert forall|k: int| 0 <= k < mvs@.len() implies mvs@.contains(#[trigger] mvs@[k]) by {}
    mvs
}

/// Plays a move that the engine generated for this position, without a
/// second look at its legality, and hands back the position reached. The
/// position given stays as it is.
pub(crate) fn play(side: Side, state: &State, hands: &MochigomaCollections, m: LegalMove) -> (next: (
    State,
    MochigomaCollections,
))
    requires
        playable(side, *state, *hands),
        generated_moves(side, *state, *hands).contains(m),
    ensures
        next == child(side, *state, *hands, m),
        playable(side.flipped(), next.0, next.1),
{
    let applied = to_applied_move(m);
    assert(is_generated(side, *state, *hands, applied));
    let (next, next_hands, _) = apply_move(state, side, hands, applied);
    (next, next_hands)
}

/// Counts the moves at the positions `depth` plies below the given one,
/// following `mvs` first: at depth 0 the number of `mvs`, else the sum over
/// `mvs` of the counts to `depth - 1` below the positions they lead to, with
/// the other player to move there. At depth 0 no move is played, and any
/// position and any moves will do. Returns `None` exactly when that count is
/// more than a `usize` holds.
pub fn process_moves(
    side: Side,
    state: &State,
    hands: &MochigomaCollections,
    mvs: &Vec<LegalMove>,
    depth: u32,
) -> (count: Option<usize>)
    requires
        depth > 0 ==> playable(side, *state, *hands),
        depth > 0 ==> all_generated(side, *state, *hands, mvs@),
    ensures
        counts(count, leaf_count(side, *state, *hands, mvs@, depth as nat)),
        depth == 0 ==> count == Some(mvs.len()),
        mvs.len() == 0 ==> count == Some(0usize),
    decreases depth,
{
    if depth == 0 {
        return Some(mvs.len());
    }
    let ghost below = leaves_below(side, *state, *hands, (depth - 1) as nat);
    let mut count: usize = 0;
    let mut i: usize = 0;
    while i < mvs.len()
        invariant
            0 <= i <= mvs.len(),
            depth > 0,
            playable(side, *state, *hands),
            all_generated(side, *state, *hands, mvs@),
            below == leaves_below(side, *state, *hands, (depth - 1) as nat),
            count == sum_over(mvs@.take(i as int), below),
        decreases mvs.len() - i,
    {
        let m = mvs[i];
        let (next, next_hands) = play(side, state, hands, m);
        let replies = generate(side.opposite(), &next, &next_hands);
        let found = process_moves(side.opposite(), &next, &next_hands, &replies, depth - 1);
        proof {
            lemma_sum_over_step(mvs@, below, i as int);
            lemma_sum_over_prefix(mvs@, below, i + 1);
            assert(below(m) == enumerated(side.flipped(), next, next_hands, (depth - 1) as nat));
        }
        match found {
            None => {
                return None;
            },
            Some(n) => match count.checked_add(n) {
                None => {
                    return None;
                },
                Some(sum) => {
                    count = sum;
                },
            },
        }
        i += 1;
    }
    assert(mvs@.take(i as int) == mvs@);
    Some(count)
}

/// Counts the moves at the positions `depth` plies below the given one,
/// starting with the moves that the engine generates for `side`: the number
/// of lines of play of `depth + 1` moves. Returns `None` exactly when that
/// count is more than a `usize` holds.
pub fn enumerate(side: Side, state: &State, hands: &MochigomaCollections, depth: u32) -> (count: Option<
    usize,
>)
    requires
        playable(side, *state, *hands),
    ensures
        counts(count, enumerated(side, *state, *hands, depth as nat)),
        depth == 0 ==> count == Some(generated_moves(side, *state, *hands).len() as usize),
{
    let mvs = generate(side, state, hands);
    process_moves(side, state, hands, &mvs, depth)
}

/// Counts as `process_moves` does, and at every position that it reaches
/// below the given one asks the engine whether the player to move there may
/// declare a win by an entering king. No time limit is handed to that
/// question, and its answer is dropped: the count is that of
/// `process_moves`.
pub fn process_moves_with_is_nyugyoku_win(
    side: Side,
    state: &State,
    hands: &MochigomaCollections,
    mvs: &Vec<LegalMove>,
    depth: u32,
) -> (count: Option<usize>)
    requires
        depth > 0 ==> playable(side, *state, *hands),
        depth > 0 ==> all_generated(side, *state, *hands, mvs@),
    ensures
        counts(count, leaf_count(side, *state, *hands, mvs@, depth as nat)),
        depth == 0 ==> count == Some(mvs.len()),
        mvs.len() == 0 ==> count == Some(0usize),
    decreases depth,
{
    if depth == 0 {
        return Some(mvs.len());
    }
    let ghost below = leaves_below(side, *state, *hands, (depth - 1) as nat);
    let mut count: usize = 0;
    let mut i: usize = 0;
    while i < mvs.len()
        invariant
            0 <= i <= mvs.len(),
            depth > 0,
            playable(side, *state, *hands),
            all_generated(side, *state, *hands, mvs@),
            below == leaves_below(side, *state, *hands, (depth - 1) as nat),
            count == sum_over(mvs@.take(i as int), below),
        decreases mvs.len() - i,
    {
        let m = mvs[i];
        let (next, next_hands) = play(side, state, hands, m);
        let _ = is_nyugyoku_win(&next, side.opposite(), &next_hands, &None);
        let replies = generate(side.opposite(), &next, &next_hands);
        let found = process_moves_with_is_nyugyoku_win(
            side.opposite(),
            &next,
            &next_hands,
            &replies,
            depth - 1,
        );
        proof {
            lemma_sum_over_step(mvs@, below, i as int);
            lemma_sum_over_prefix(mvs@, below, i + 1);
            assert(below(m) == enumerated(side.flipped(), next, next_hands, (depth - 1) as nat));
        }
        match found {
            None => {
                return None;
            },
            Some(n) => match count.checked_add(n) {
                None => {
                    return None;
                },
                Some(sum) => {
                    count = sum;
                },
            },
        }
        i += 1;
    }
    assert(mvs@.take(i as int) == mvs@);
    Some(count)
}

/// Asks the engine for the moves that `query` selects and counts them.
pub fn count_query(query: Query, side: Side, state: &State, hands: &MochigomaCollections) -> (found: usize)
    requires
        playable(side, *state, *hands),
    ensures
        found == query_count(query, side, *state, *hands),
{
    match query {
        Query::WinOnly => {
            assert(playable_board(side, *state));
            win_only_moves(side, state).len()
        },
        Query::CheckOnly => oute_only_moves_all(side, state, hands).len(),
    }
}

/// Whether `result` is what a timed traversal hands back where the tally is
/// `exact`, the time handed in `seed`, and `samples` positions were reached
/// and timed: the tally, with a time that is `seed` itself where nothing was
/// timed and else not below it; or nothing, where the tally is more than a
/// `usize` holds. What each reading of the clock gave is no argument of the
/// traversal, so no more is said of the time.
pub open spec fn tallies(result: Option<(usize, u128)>, exact: nat, seed: u128, samples: nat) -> bool {
    match result {
        Some((total, spent)) => {
            &&& total == exact
            &&& spent >= seed
            &&& samples == 0 ==> spent == seed
        },
        None => exact > usize::MAX,
    }
}

/// Walks the tree as `process_moves` does. At every position that it reaches
/// below the given one it times `query` for the player to move there, adds
/// the time taken to `time` with `add_sample`, and hands the number of moves
/// found and the time on to the traversal of that position.
///
/// At depth 0 nothing is reached: `count`, which is what the query found at
/// the given position and which the caller has asked, comes back with
/// `time`. At a greater depth `count` is left aside, and the tally is the
/// query's count at every position reached: for each move the count at the
/// position it leads to, and the tally of the traversal below it where that
/// goes deeper. Returns `None` exactly when the tally is more than a `usize`
/// holds.
pub fn process_moves_with_query(
    query: Query,
    side: Side,
    state: &State,
    hands: &MochigomaCollections,
    mvs: &Vec<LegalMove>,
    depth: u32,
    count: usize,
    time: u128,
) -> (result: Option<(usize, u128)>)
    requires
        depth > 0 ==> playable(side, *state, *hands),
        depth > 0 ==> all_generated(side, *state, *hands, mvs@),
    ensures
        tallies(
            result,
            query_tally(query, side, *state, *hands, mvs@, depth as nat, count as nat),
            time,
            reached(side, *state, *hands, mvs@, depth as nat),
        ),
        depth == 0 ==> result == Some((count, time)),
        depth > 0 && mvs.len() == 0 ==> result == Some((0usize, time)),
    decreases depth,
{
    if depth == 0 {
        return Some((count, time));
    }
    let ghost below = tally_below(query, side, *state, *hands, (depth - 1) as nat);
    let ghost visits = reached_below(side, *state, *hands, (depth - 1) as nat);
    let mut total: usize = 0;
    let mut spent: u128 = time;
    let mut i: usize = 0;
    while i < mvs.len()
        invariant
            0 <= i <= mvs.len(),
            depth > 0,
            playable(side, *state, *hands),
            all_generated(side, *state, *hands, mvs@),
            below == tally_below(query, side, *state, *hands, (depth - 1) as nat),
            visits == reached_below(side, *state, *hands, (depth - 1) as nat),
            total == sum_over(mvs@.take(i as int), below),
            spent >= time,
            i == 0 ==> spent == time,
            i > 0 ==> sum_over(mvs@.take(i as int), visits) > 0,
        decreases mvs.len() - i,
    {
        let m = mvs[i];
        let (next, next_hands) = play(side, state, hands, m);
        let replies = generate(side.opposite(), &next, &next_hands);
        let start = clock_now();
        let found = count_query(query, side.opposite(), &next, &next_hands);
        let sample = nanos_since(&start);
        let timed = add_sample(spent, sample);
        let deeper = process_moves_with_query(
            query,
            side.opposite(),
            &next,
            &next_hands,
            &replies,
            depth - 1,
            found,
            timed,
        );
        proof {
            lemma_sum_over_step(mvs@, below, i as int);
            lemma_sum_over_step(mvs@, visits, i as int);
            lemma_sum_over_prefix(mvs@, below, i + 1);
            assert(below(m) == queried(query, side.flipped(), next, next_hands, (depth - 1) as nat));
        }
        let here = match deeper {
            None => None,
            Some((n, t)) => {
                spent = t;
                if depth == 1 {
                    Some(n)
                } else {
                    found.checked_add(n)
                }
            },
        };
        match here {
            None => {
                return None;
            },
            Some(n) => match total.checked_add(n) {
                None => {
                    return None;
                },
                Some(sum) => {
                    total = sum;
                },
            },
        }
        i += 1;
    }
    assert(mvs@.take(i as int) == mvs@);
    Some((total, spent))
}

/// The timed traversal with the query for the moves that take the opposing
/// king.
pub fn process_moves_with_win_only_moves(
    side: Side,
    state: &State,
    hands: &MochigomaCollections,
    mvs: &Vec<LegalMove>,
    depth: u32,
    count: usize,
    time: u128,
) -> (result: Option<(usize, u128)>)
    requires
        depth > 0 ==> playable(side, *state, *hands),
        depth > 0 ==> all_generated(side, *state, *hands, mvs@),
    ensures
        tallies(
            result,
            query_tally(Query::WinOnly, side, *state, *hands, mvs@, depth as nat, count as nat),
            time,
            reached(side, *state, *hands, mvs@, depth as nat),
        ),
        depth == 0 ==> result == Some((count, time)),
        depth > 0 && mvs.len() == 0 ==> result == Some((0usize, time)),
{
    process_moves_with_query(Query::WinOnly, side, state, hands, mvs, depth, count, time)
}

/// The timed traversal with the query for the moves that give check.
pub fn process_moves_with_oute_only_moves(
    side: Side,
    state: &State,
    hands: &MochigomaCollections,
    mvs: &Vec<LegalMove>,
    depth: u32,
    count: usize,
    time: u128,
) -> (result: Option<(usize, u128)>)
    requires
        depth > 0 ==> playable(side, *state, *hands),
        depth > 0 ==> all_generated(side, *state, *hands, mvs@),
    ensures
        tallies(
            result,
            query_tally(Query::CheckOnly, side, *state, *hands, mvs@, depth as nat, count as nat),
            time,
            reached(side, *state, *hands, mvs@, depth as nat),
        ),
        depth == 0 ==> result == Some((count, time)),
        depth > 0 && mvs.len() == 0 ==> result == Some((0usize, time)),
{
    process_moves_with_query(Query::CheckOnly, side, state, hands, mvs, depth, count, time)
}

} // verus!
