//! Lines of play, and why the count of a traversal is their number.

use vstd::prelude::*;
use vstd::relations::injective_on;
use vstd::set_lib::{lemma_map_size, lemma_set_disjoint_lens};
use crate::oracle::generated_moves;
use crate::side::Side;
use crate::tree::{child, enumerated, leaf_count, leaves_below, sum_over};
use usiagent::rule::{LegalMove, State};
use usiagent::shogi::MochigomaCollections;

verus! {

/// Whether `line` can be played from the position: its first move is one of
/// `moves`, and every later move is one that the engine generates where it
/// is played, the players taking turns.
pub open spec fn can_be_played(
    side: Side,
    state: State,
    hands: MochigomaCollections,
    moves: Seq<LegalMove>,
    line: Seq<LegalMove>,
) -> bool
    decreases line.len(),
{
    if line.len() == 0 {
        true
    } else {
        let next = child(side, state, hands, line.first());
        let mover = side.flipped();
        &&& moves.contains(line.first())
        &&& can_be_played(
            mover,
            next.0,
            next.1,
            generated_moves(mover, next.0, next.1),
            line.drop_first(),
        )
    }
}

/// The lines of `depth + 1` moves that can be played from the position.
pub open spec fn lines(
    side: Side,
    state: State,
    hands: MochigomaCollections,
    moves: Seq<LegalMove>,
    depth: nat,
) -> Set<Seq<LegalMove>> {
    Set::new(
        |line: Seq<LegalMove>|
            line.len() == depth + 1 && can_be_played(side, state, hands, moves, line),
    )
}

/// Whether no move comes twice: not in `moves`, and not in what the engine
/// generates at any position within `depth` plies below.
pub open spec fn never_twice(
    side: Side,
    state: State,
    hands: MochigomaCollections,
    moves: Seq<LegalMove>,
    depth: nat,
) -> bool
    decreases depth,
{
    &&& moves.no_duplicates()
    &&& depth > 0 ==> forall|i: int|
        0 <= i < moves.len() ==> {
            let next = child(side, state, hands, #[trigger] moves[i]);
            let mover = side.flipped();
            never_twice(
                mover,
                next.0,
                next.1,
                generated_moves(mover, next.0, next.1),
                (depth - 1) as nat,
            )
        }
}

/// The line that starts with `m` and goes on as the line given.
pub open spec fn starting_with(m: LegalMove) -> spec_fn(Seq<LegalMove>) -> Seq<LegalMove> {
    |rest: Seq<LegalMove>| seq![m] + rest
}

/// What a traversal counts is the number of lines of play: where no move is
/// generated twice, the count to `depth` is the number of different lines
/// of `depth + 1` moves that can be played from the position.
pub proof fn lemma_count_is_number_of_lines(
    side: Side,
    state: State,
    hands: MochigomaCollections,
    moves: Seq<LegalMove>,
    depth: nat,
)
    requires
        never_twice(side, state, hands, moves, depth),
    ensures
        lines(side, state, hands, moves, depth).finite(),
        lines(side, state, hands, moves, depth).len() == leaf_count(
            side,
            state,
            hands,
            moves,
            depth,
        ),
    decreases depth, moves.len(),
{
    let all = lines(side, state, hands, moves, depth);
    if moves.len() == 0 {
        assert forall|line: Seq<LegalMove>| !all.contains(line) by {
            if line.len() == depth + 1 {
                assert(!moves.contains(line.first()));
            }
        }
        assert(all =~= Set::empty());
    } else {
        let m = moves.last();
        let rest = moves.drop_last();
        let next = child(side, state, hands, m);
        let mover = side.flipped();
        let replies = generated_moves(mover, next.0, next.1);
        let before = lines(side, state, hands, rest, depth);

        assert(never_twice(side, state, hands, rest, depth)) by {
            assert(rest.no_duplicates());
            if depth > 0 {
                assert forall|i: int| 0 <= i < rest.len() implies {
                    let next = child(side, state, hands, #[trigger] rest[i]);
                    never_twice(
                        mover,
                        next.0,
                        next.1,
                        generated_moves(mover, next.0, next.1),
                        (depth - 1) as nat,
                    )
                } by {
                    assert(rest[i] == moves[i]);
                }
            }
        }
        lemma_count_is_number_of_lines(side, state, hands, rest, depth);

        let tails: Set<Seq<LegalMove>> = if depth == 0 {
            set![Seq::<LegalMove>::empty()]
        } else {
            lines(mover, next.0, next.1, replies, (depth - 1) as nat)
        };
        let weight: nat = if depth == 0 {
            1
        } else {
            enumerated(mover, next.0, next.1, (depth - 1) as nat)
        };
        if depth > 0 {
            assert(moves[moves.len() - 1] == m);
            lemma_count_is_number_of_lines(mover, next.0, next.1, replies, (depth - 1) as nat);
        }
        assert(tails.finite() && tails.len() == weight);

        let through = tails.map(starting_with(m));
        assert(injective_on(starting_with(m), tails)) by {
            assert forall|a: Seq<LegalMove>, b: Seq<LegalMove>| #[trigger]
                starting_with(m)(a) == #[trigger] starting_with(m)(b) implies a == b by {
                assert((seq![m] + a).drop_first() =~= a);
                assert((seq![m] + b).drop_first() =~= b);
            }
        }
        lemma_map_size(tails, through, starting_with(m));

        assert forall|line: Seq<LegalMove>| all.contains(line) implies before.contains(line)
            || through.contains(line) by {
            let tail = line.drop_first();
            assert(line =~= seq![line.first()] + tail);
            if line.first() == m {
                if depth == 0 {
                    assert(tail =~= Seq::<LegalMove>::empty());
                }
                assert(tails.contains(tail));
                assert(starting_with(m)(tail) == line);
                assert(through.contains(line));
            } else {
                let k = choose|k: int| 0 <= k < moves.len() && moves[k] == line.first();
                assert(rest[k] == line.first());
                assert(can_be_played(side, state, hands, rest, line));
                assert(before.contains(line));
            }
        }
        assert forall|line: Seq<LegalMove>| before.contains(line) implies all.contains(line) by {
            let k = choose|k: int| 0 <= k < rest.len() && rest[k] == line.first();
            assert(moves[k] == line.first());
            assert(can_be_played(side, state, hands, moves, line));
        }
        assert forall|line: Seq<LegalMove>| through.contains(line) implies all.contains(line) by {
            let tail = choose|tail: Seq<LegalMove>|
                tails.contains(tail) && line == starting_with(m)(tail);
            assert(line == seq![m] + tail);
            assert(line.first() == m);
            assert(line.drop_first() =~= tail);
            assert(moves[moves.len() - 1] == m);
            assert(moves.contains(m));
            if depth == 0 {
                assert(tail == Seq::<LegalMove>::empty());
            }
            assert(can_be_played(mover, next.0, next.1, replies, tail));
            assert(can_be_played(side, state, hands, moves, line));
        }
        assert(all =~= before + through);
        assert(before.disjoint(through)) by {
            assert forall|line: Seq<LegalMove>|
                before.contains(line) && through.contains(line) implies false by {
                let tail = choose|tail: Seq<LegalMove>|
                    tails.contains(tail) && line == starting_with(m)(tail);
                assert(line.first() == m);
                let k = choose|k: int| 0 <= k < rest.len() && rest[k] == line.first();
                assert(moves[k] == moves[moves.len() - 1]);
            }
        }
        lemma_set_disjoint_lens(before, through);
        if depth > 0 {
            assert(leaves_below(side, state, hands, (depth - 1) as nat)(m) == weight);
        }
    }
}

} // verus!
