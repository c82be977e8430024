//! The game tree below a position, and what the traversals count in it.

use vstd::prelude::*;
use crate::side::Side;
use crate::oracle::{
    applied_form, checking_moves, generated_moves, position_after, winning_moves,
};
use usiagent::rule::{LegalMove, State};
use usiagent::shogi::MochigomaCollections;

verus! {

/// The sum of `weight` over the items of a sequence.
pub open spec fn sum_over<T>(items: Seq<T>, weight: spec_fn(T) -> nat) -> nat
    decreases items.len(),
{
    if items.len() == 0 {
        0
    } else {
        sum_over(items.drop_last(), weight) + weight(items.last())
    }
}

/// The position that `side` reaches by playing `m`.
pub open spec fn child(side: Side, state: State, hands: MochigomaCollections, m: LegalMove) -> (
    State,
    MochigomaCollections,
) {
    let next = position_after(state, side, hands, applied_form(m));
    (next.0, next.1)
}

/// Whether every move of `moves` is one that the engine generates for `side`
/// in this position.
pub open spec fn all_generated(
    side: Side,
    state: State,
    hands: MochigomaCollections,
    moves: Seq<LegalMove>,
) -> bool {
    forall|i: int|
        0 <= i < moves.len() ==> generated_moves(side, state, hands).contains(#[trigger] moves[i])
}

/// The count of a traversal that starts with `moves`: at depth 0 their
/// number, and at a greater depth the sum, over `moves`, of what is
/// enumerated below the position each of them leads to.
pub open spec fn leaf_count(
    side: Side,
    state: State,
    hands: MochigomaCollections,
    moves: Seq<LegalMove>,
    depth: nat,
) -> nat
    decreases depth, 0nat,
{
    if depth == 0 {
        moves.len()
    } else {
        sum_over(moves, leaves_below(side, state, hands, (depth - 1) as nat))
    }
}

/// The count of a traversal that starts with the moves that the engine
/// generates: the number of lines of play of `depth + 1` moves.
pub open spec fn enumerated(side: Side, state: State, hands: MochigomaCollections, depth: nat) -> nat
    decreases depth, 1nat,
{
    leaf_count(side, state, hands, generated_moves(side, state, hands), depth)
}

/// For each move of `side`, what is enumerated to `depth` below the position
/// that the move leads to.
pub open spec fn leaves_below(side: Side, state: State, hands: MochigomaCollections, depth: nat) -> spec_fn(
    LegalMove,
) -> nat
    decreases depth, 2nat,
{
    |m: LegalMove|
        {
            let next = child(side, state, hands, m);
            enumerated(side.flipped(), next.0, next.1, depth)
        }
}

/// The move query that a timed traversal makes at each position it reaches.
#[derive(Clone, Copy, Debug, PartialEq, Eq, Structural)]
pub enum Query {
    /// The moves that take the opposing king.
    WinOnly,
    /// The moves that give check.
    CheckOnly,
}

/// The number of moves that `query` finds for `side` in a position.
pub open spec fn query_count(query: Query, side: Side, state: State, hands: MochigomaCollections) -> nat {
    match query {
        Query::WinOnly => winning_moves(side, state).len(),
        Query::CheckOnly => checking_moves(side, state, hands).len(),
    }
}

/// The tally of a timed traversal that starts with `moves`. At depth 0 it is
/// `count`, the count that the caller hands in. At a greater depth `count`
/// plays no part: the tally is the sum, over `moves`, of the tallies of the
/// positions they lead to, and so the query's count at every position
/// within `depth` plies below.
pub open spec fn query_tally(
    query: Query,
    side: Side,
    state: State,
    hands: MochigomaCollections,
    moves: Seq<LegalMove>,
    depth: nat,
    count: nat,
) -> nat
    decreases depth, 0nat,
{
    if depth == 0 {
        count
    } else {
        sum_over(moves, tally_below(query, side, state, hands, (depth - 1) as nat))
    }
}

/// The tally of a position: the query's count there and, through the moves
/// that the engine generates, at every position within `depth` plies below.
pub open spec fn queried(
    query: Query,
    side: Side,
    state: State,
    hands: MochigomaCollections,
    depth: nat,
) -> nat
    decreases depth, 1nat,
{
    query_count(query, side, state, hands) + query_tally(
        query,
        side,
        state,
        hands,
        generated_moves(side, state, hands),
        depth,
        0,
    )
}

/// For each move of `side`, the tally to `depth` of the position that the
/// move leads to.
pub open spec fn tally_below(
    query: Query,
    side: Side,
    state: State,
    hands: MochigomaCollections,
    depth: nat,
) -> spec_fn(LegalMove) -> nat
    decreases depth, 2nat,
{
    |m: LegalMove|
        {
            let next = child(side, state, hands, m);
            queried(query, side.flipped(), next.0, next.1, depth)
        }
}

/// The number of positions that a traversal of `moves` to `depth` reaches
/// below its own: one for each move, and those reached below it.
pub open spec fn reached(
    side: Side,
    state: State,
    hands: MochigomaCollections,
    moves: Seq<LegalMove>,
    depth: nat,
) -> nat
    decreases depth, 0nat,
{
    if depth == 0 {
        0
    } else {
        sum_over(moves, reached_below(side, state, hands, (depth - 1) as nat))
    }
}

/// The number of positions within `depth` plies below the given one,
/// through the moves that the engine generates.
pub open spec fn descendants(side: Side, state: State, hands: MochigomaCollections, depth: nat) -> nat
    decreases depth, 1nat,
{
    reached(side, state, hands, generated_moves(side, state, hands), depth)
}

/// For each move of `side`, the position that the move leads to and those
/// within `depth` plies below it.
pub open spec fn reached_below(side: Side, state: State, hands: MochigomaCollections, depth: nat) -> spec_fn(
    LegalMove,
) -> nat
    decreases depth, 2nat,
{
    |m: LegalMove|
        {
            let next = child(side, state, hands, m);
            1 + descendants(side.flipped(), next.0, next.1, depth)
        }
}

/// Adding the item at `i` to the sum over the items before it gives the sum
/// over the items up to it.
pub proof fn lemma_sum_over_step<T>(items: Seq<T>, weight: spec_fn(T) -> nat, i: int)
    requires
        0 <= i < items.len(),
    ensures
        sum_over(items.take(i + 1), weight) == sum_over(items.take(i), weight) + weight(items[i]),
{
    assert(items.take(i + 1).drop_last() == items.take(i));
}

/// The sum over a sequence is the sum over its parts.
pub proof fn lemma_sum_over_concat<T>(front: Seq<T>, back: Seq<T>, weight: spec_fn(T) -> nat)
    ensures
        sum_over(front + back, weight) == sum_over(front, weight) + sum_over(back, weight),
    decreases back.len(),
{
    if back.len() == 0 {
        assert(front + back == front);
    } else {
        lemma_sum_over_concat(front, back.drop_last(), weight);
        assert((front + back).drop_last() == front + back.drop_last());
    }
}

/// The sum over the first `i` items is at most the sum over all of them.
pub proof fn lemma_sum_over_prefix<T>(items: Seq<T>, weight: spec_fn(T) -> nat, i: int)
    requires
        0 <= i <= items.len(),
    ensures
        sum_over(items.take(i), weight) <= sum_over(items, weight),
{
    lemma_sum_over_concat(items.take(i), items.skip(i), weight);
    assert(items.take(i) + items.skip(i) == items);
}

} // verus!
