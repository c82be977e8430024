//! What holds of the counts, whatever the position.

use vstd::prelude::*;
use vstd::seq_lib::{to_multiset_contains, to_multiset_len, to_multiset_remove};
use crate::oracle::generated_moves;
use crate::side::Side;
use crate::traversal::counts;
use crate::tree::{
    child, enumerated, leaf_count, leaves_below, lemma_sum_over_concat, queried, query_count,
    query_tally, reached, reached_below, sum_over, tally_below, Query,
};
use usiagent::rule::{LegalMove, State};
use usiagent::shogi::MochigomaCollections;

verus! {

/// At depth 0 a traversal counts the moves it was given and goes no
/// further: from a position, the moves that the engine generates there.
pub proof fn lemma_depth_zero_counts_moves(
    side: Side,
    state: State,
    hands: MochigomaCollections,
    moves: Seq<LegalMove>,
)
    ensures
        leaf_count(side, state, hands, moves, 0) == moves.len(),
        enumerated(side, state, hands, 0) == generated_moves(side, state, hands).len(),
{
}

/// Below depth 0 the count of a position is the sum of the counts of its
/// children, each taken one ply less deep with the other player to move.
pub proof fn lemma_count_is_sum_of_children(
    side: Side,
    state: State,
    hands: MochigomaCollections,
    depth: nat,
)
    requires
        depth > 0,
    ensures
        enumerated(side, state, hands, depth) == sum_over(
            generated_moves(side, state, hands),
            |m: LegalMove|
                enumerated(
                    side.flipped(),
                    child(side, state, hands, m).0,
                    child(side, state, hands, m).1,
                    (depth - 1) as nat,
                ),
        ),
{
    let below = leaves_below(side, state, hands, (depth - 1) as nat);
    let children = |m: LegalMove|
        enumerated(
            side.flipped(),
            child(side, state, hands, m).0,
            child(side, state, hands, m).1,
            (depth - 1) as nat,
        );
    lemma_sum_over_same(generated_moves(side, state, hands), below, children);
}

/// One more move adds the count of the child it leads to.
pub proof fn lemma_count_grows_by_child(
    side: Side,
    state: State,
    hands: MochigomaCollections,
    moves: Seq<LegalMove>,
    m: LegalMove,
    depth: nat,
)
    requires
        depth > 0,
    ensures
        leaf_count(side, state, hands, moves.push(m), depth) == leaf_count(
            side,
            state,
            hands,
            moves,
            depth,
        ) + enumerated(
            side.flipped(),
            child(side, state, hands, m).0,
            child(side, state, hands, m).1,
            (depth - 1) as nat,
        ),
{
    assert(moves.push(m).drop_last() == moves);
}

/// Where there is no move to follow, nothing is counted, at any depth; a
/// timed traversal has then reached no position, and its tally is 0 above
/// depth 0.
pub proof fn lemma_no_moves_count_nothing(
    query: Query,
    side: Side,
    state: State,
    hands: MochigomaCollections,
    depth: nat,
    count: nat,
)
    ensures
        leaf_count(side, state, hands, Seq::empty(), depth) == 0,
        generated_moves(side, state, hands).len() == 0 ==> enumerated(side, state, hands, depth)
            == 0,
        depth > 0 ==> query_tally(query, side, state, hands, Seq::empty(), depth, count) == 0,
        reached(side, state, hands, Seq::empty(), depth) == 0,
{
    if generated_moves(side, state, hands).len() == 0 {
        assert(generated_moves(side, state, hands) == Seq::<LegalMove>::empty());
    }
}

/// The count handed to a timed traversal comes back at depth 0 and plays no
/// part above it: there the tally is the sum, over the moves, of the tallies
/// of the positions they lead to, each with the query's count at that
/// position in it.
pub proof fn lemma_count_handed_in_matters_at_depth_zero_only(
    query: Query,
    side: Side,
    state: State,
    hands: MochigomaCollections,
    moves: Seq<LegalMove>,
    depth: nat,
    count: nat,
    other: nat,
)
    ensures
        query_tally(query, side, state, hands, moves, 0, count) == count,
        depth > 0 ==> query_tally(query, side, state, hands, moves, depth, count) == query_tally(
            query,
            side,
            state,
            hands,
            moves,
            depth,
            other,
        ),
        depth > 0 ==> query_tally(query, side, state, hands, moves, depth, count) == sum_over(
            moves,
            |m: LegalMove|
                queried(
                    query,
                    side.flipped(),
                    child(side, state, hands, m).0,
                    child(side, state, hands, m).1,
                    (depth - 1) as nat,
                ),
        ),
{
    if depth > 0 {
        let below = tally_below(query, side, state, hands, (depth - 1) as nat);
        let children = |m: LegalMove|
            queried(
                query,
                side.flipped(),
                child(side, state, hands, m).0,
                child(side, state, hands, m).1,
                (depth - 1) as nat,
            );
        lemma_sum_over_same(moves, below, children);
    }
}

/// The tally of a position is the query's count there and the tallies of
/// its children, each taken one ply less deep with the other player to
/// move; at depth 0 it is the query's count alone.
pub proof fn lemma_tally_is_count_and_children(
    query: Query,
    side: Side,
    state: State,
    hands: MochigomaCollections,
    depth: nat,
)
    ensures
        queried(query, side, state, hands, 0) == query_count(query, side, state, hands),
        depth > 0 ==> queried(query, side, state, hands, depth) == query_count(
            query,
            side,
            state,
            hands,
        ) + sum_over(
            generated_moves(side, state, hands),
            |m: LegalMove|
                queried(
                    query,
                    side.flipped(),
                    child(side, state, hands, m).0,
                    child(side, state, hands, m).1,
                    (depth - 1) as nat,
                ),
        ),
{
    lemma_count_handed_in_matters_at_depth_zero_only(
        query,
        side,
        state,
        hands,
        generated_moves(side, state, hands),
        depth,
        0,
        0,
    );
}

/// Two weights that agree on every item give the same sum.
pub proof fn lemma_sum_over_same<T>(items: Seq<T>, left: spec_fn(T) -> nat, right: spec_fn(T) -> nat)
    requires
        forall|i: int| 0 <= i < items.len() ==> left(#[trigger] items[i]) == right(items[i]),
    ensures
        sum_over(items, left) == sum_over(items, right),
    decreases items.len(),
{
    if items.len() > 0 {
        lemma_sum_over_same(items.drop_last(), left, right);
    }
}

/// Taking one item out of a sequence takes its weight out of the sum.
pub proof fn lemma_sum_over_remove<T>(items: Seq<T>, weight: spec_fn(T) -> nat, i: int)
    requires
        0 <= i < items.len(),
    ensures
        sum_over(items, weight) == sum_over(items.remove(i), weight) + weight(items[i]),
{
    let front = items.subrange(0, i);
    let one = seq![items[i]];
    let back = items.subrange(i + 1, items.len() as int);
    assert(items == front + one + back);
    lemma_sum_over_concat(front + one, back, weight);
    lemma_sum_over_concat(front, one, weight);
    lemma_sum_over_concat(front, back, weight);
    assert(sum_over(one, weight) == weight(items[i])) by {
        assert(one.drop_last() == Seq::<T>::empty());
        assert(sum_over(Seq::<T>::empty(), weight) == 0);
    }
}

/// A sum does not depend on the order of its items: two sequences that hold
/// the same items equally often give the same sum.
pub proof fn lemma_sum_over_any_order<T>(left: Seq<T>, right: Seq<T>, weight: spec_fn(T) -> nat)
    requires
        left.to_multiset() == right.to_multiset(),
    ensures
        sum_over(left, weight) == sum_over(right, weight),
    decreases left.len(),
{
    to_multiset_len(left);
    to_multiset_len(right);
    if left.len() > 0 {
        let last = left.last();
        let rest = left.drop_last();
        assert(left.contains(last)) by {
            assert(left[left.len() - 1] == last);
        }
        to_multiset_contains(left, last);
        to_multiset_contains(right, last);
        let k = choose|k: int| 0 <= k < right.len() && right[k] == last;
        assert(rest == left.remove(left.len() - 1));
        to_multiset_remove(left, left.len() - 1);
        to_multiset_remove(right, k);
        lemma_sum_over_any_order(rest, right.remove(k), weight);
        lemma_sum_over_remove(right, weight, k);
    }
}

/// The counts do not depend on the order in which the moves come: two
/// lists that hold the same moves equally often give the same count, the
/// same tally, and reach as many positions.
pub proof fn lemma_order_of_moves_is_free(
    query: Query,
    side: Side,
    state: State,
    hands: MochigomaCollections,
    moves: Seq<LegalMove>,
    shuffled: Seq<LegalMove>,
    depth: nat,
    count: nat,
)
    requires
        moves.to_multiset() == shuffled.to_multiset(),
    ensures
        leaf_count(side, state, hands, moves, depth) == leaf_count(
            side,
            state,
            hands,
            shuffled,
            depth,
        ),
        query_tally(query, side, state, hands, moves, depth, count) == query_tally(
            query,
            side,
            state,
            hands,
            shuffled,
            depth,
            count,
        ),
        reached(side, state, hands, moves, depth) == reached(side, state, hands, shuffled, depth),
{
    to_multiset_len(moves);
    to_multiset_len(shuffled);
    if depth > 0 {
        let d = (depth - 1) as nat;
        lemma_sum_over_any_order(moves, shuffled, leaves_below(side, state, hands, d));
        lemma_sum_over_any_order(moves, shuffled, tally_below(query, side, state, hands, d));
        lemma_sum_over_any_order(moves, shuffled, reached_below(side, state, hands, d));
    }
}

/// A count says one thing only: two results that both stand for the same
/// exact count are the same result. So the traversal that asks for the
/// entering king on its way returns what the plain traversal returns.
pub proof fn lemma_counts_agree(plain: Option<usize>, probed: Option<usize>, exact: nat)
    requires
        counts(plain, exact),
        counts(probed, exact),
    ensures
        plain == probed,
{
}

} // verus!
