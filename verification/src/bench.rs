//! The runs: each seeds a traversal at a position, as one of four variants,
//! and measures it.

use vstd::prelude::*;
use crate::clock::{clock_now, nanos_since};
use crate::oracle::{is_nyugyoku_win, playable};
use crate::report::Measurement;
use crate::side::Side;
use crate::traversal::{
    count_query, generate, process_moves, process_moves_with_is_nyugyoku_win,
    process_moves_with_query,
};
use crate::tree::{descendants, enumerated, queried, Query};
use usiagent::rule::State;
use usiagent::shogi::MochigomaCollections;

verus! {

/// What a run does at each position beside walking on.
#[derive(Clone, Copy, Debug, PartialEq, Eq, Structural)]
pub enum Variant {
    /// Generates the moves and nothing else.
    LegalMoves,
    /// Times the query for the moves that take the opposing king.
    WinOnly,
    /// Times the query for the moves that give check.
    CheckOnly,
    /// Asks whether the player to move may declare a win by an entering
    /// king.
    EnteringKing,
}

/// The count that a run of `variant` reports from a position: for the
/// timed variants the query's tally over the position and all that lie
/// within `depth` plies below it, for the other two the number of moves
/// `depth` plies below.
pub open spec fn reported_count(
    variant: Variant,
    side: Side,
    state: State,
    hands: MochigomaCollections,
    depth: nat,
) -> nat {
    match variant {
        Variant::LegalMoves => enumerated(side, state, hands, depth),
        Variant::WinOnly => queried(Query::WinOnly, side, state, hands, depth),
        Variant::CheckOnly => queried(Query::CheckOnly, side, state, hands, depth),
        Variant::EnteringKing => enumerated(side, state, hands, depth),
    }
}

/// Whether `variant` reports the time of its queries alone, one reading of
/// the clock for each position below the seed, and not the time of the
/// whole run.
pub open spec fn times_queries(variant: Variant) -> bool {
    variant == Variant::WinOnly || variant == Variant::CheckOnly
}

/// Runs `variant` from a position to `depth` and measures it.
///
/// A timed variant asks its query once at the seed, untimed, then at every
/// position below, timed. It reports what the query found at the seed and
/// at every position below, with the sum of the times of the timed queries:
/// no time at all where no position lies below. The other two report the
/// count of moves `depth` plies below with the time of the whole run;
/// `EnteringKing` asks its question at the seed too, with no time limit,
/// and drops every answer.
///
/// Returns `None` exactly when the count is more than a `usize` holds.
pub fn measure(
    variant: Variant,
    side: Side,
    state: &State,
    hands: &MochigomaCollections,
    depth: u32,
) -> (measured: Option<Measurement>)
    requires
        playable(side, *state, *hands),
    ensures
        match measured {
            Some(m) => {
                &&& m.count == reported_count(variant, side, *state, *hands, depth as nat)
                &&& times_queries(variant) && descendants(side, *state, *hands, depth as nat) == 0
                    ==> m.elapsed_nanos == 0
            },
            None => reported_count(variant, side, *state, *hands, depth as nat) > usize::MAX,
        },
{
    match variant {
        Variant::LegalMoves => {
            let start = clock_now();
            let mvs = generate(side, state, hands);
            let count = process_moves(side, state, hands, &mvs, depth);
            let elapsed_nanos = nanos_since(&start);
            match count {
                Some(count) => Some(Measurement { count, elapsed_nanos }),
                None => None,
            }
        },
        Variant::WinOnly => measure_query(Query::WinOnly, side, state, hands, depth),
        Variant::CheckOnly => measure_query(Query::CheckOnly, side, state, hands, depth),
        Variant::EnteringKing => {
            let mvs = generate(side, state, hands);
            let start = clock_now();
            let _ = is_nyugyoku_win(state, side, hands, &None);
            let count = process_moves_with_is_nyugyoku_win(side, state, hands, &mvs, depth);
            let elapsed_nanos = nanos_since(&start);
            match count {
                Some(count) => Some(Measurement { count, elapsed_nanos }),
                None => None,
            }
        },
    }
}

/// Runs a timed variant: the query at the seed, then the timed traversal
/// with no time yet. At depth 0 the traversal hands the seed's count back;
/// at a greater depth it returns the tally of the positions below, and the
/// seed's count is added to it here.
fn measure_query(
    query: Query,
    side: Side,
    state: &State,
    hands: &MochigomaCollections,
    depth: u32,
) -> (measured: Option<Measurement>)
    requires
        playable(side, *state, *hands),
    ensures
        match measured {
            Some(m) => {
                &&& m.count == queried(query, side, *state, *hands, depth as nat)
                &&& descendants(side, *state, *hands, depth as nat) == 0 ==> m.elapsed_nanos == 0
            },
            None => queried(query, side, *state, *hands, depth as nat) > usize::MAX,
        },
{
    let mvs = generate(side, state, hands);
    let found = count_query(query, side, state, hands);
    match process_moves_with_query(query, side, state, hands, &mvs, depth, found, 0) {
        None => None,
        Some((below, elapsed_nanos)) => {
            let count = if depth == 0 {
                Some(below)
            } else {
                found.checked_add(below)
            };
            match count {
                Some(count) => Some(Measurement { count, elapsed_nanos }),
                None => None,
            }
        },
    }
}

} // verus!
