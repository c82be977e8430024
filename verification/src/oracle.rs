//! The rules of the game, as the `usiagent` crate implements them.
//!
//! Nothing in this file is proved. Each function calls the rules engine and
//! states what the rest of the crate relies on; each `uninterp` function
//! gives a name to what one of those calls returns.

use vstd::prelude::*;
use crate::side::Side;
use std::time::Instant;
use usiagent::rule::{AppliedMove, LegalMove, Rule, State};
use usiagent::shogi::{MochigomaCollections, MochigomaKind, Teban};

verus! {

/// `usiagent::rule::State`: a board with the bitboards the engine keeps for it.
#[verifier::external_type_specification]
#[verifier::external_body]
pub struct ExState(State);

/// `usiagent::shogi::MochigomaCollections`: the captured pieces of both players.
#[verifier::external_type_specification]
#[verifier::external_body]
pub struct ExMochigomaCollections(MochigomaCollections);

/// `usiagent::shogi::MochigomaKind`: the kind of a captured piece.
#[verifier::external_type_specification]
#[verifier::external_body]
pub struct ExMochigomaKind(MochigomaKind);

/// `usiagent::rule::LegalMove`: a move as the engine generates it.
#[verifier::external_type_specification]
#[verifier::external_body]
pub struct ExLegalMove(LegalMove);

/// `usiagent::rule::AppliedMove`: a move in the form the engine applies.
#[verifier::external_type_specification]
#[verifier::external_body]
pub struct ExAppliedMove(AppliedMove);

/// The positions, with the player to move, from which the engine's calls
/// made in this file return, now and along every line of play: at the
/// position itself, and at each position reached from it by moves that the
/// engine generated where they were played, the players taking turns. The
/// engine's documentation leaves its behaviour open where a `State` or a
/// `MochigomaCollections` is invalid, and it panics where a position has
/// more than 593 moves; it offers no test for either. So nothing here tells
/// whether a given position is playable: whoever seeds a traversal vouches
/// for the seed.
pub uninterp spec fn playable(side: Side, state: State, hands: MochigomaCollections) -> bool;

/// What `Rule::legal_moves_all` returns: every move of `side`, in the
/// engine's order.
pub uninterp spec fn generated_moves(side: Side, state: State, hands: MochigomaCollections) -> Seq<LegalMove>;

/// What `LegalMove::to_applied_move` returns.
pub uninterp spec fn applied_form(m: LegalMove) -> AppliedMove;

/// What `Rule::apply_move_none_check` returns: the board and the captured
/// pieces after the move, and the piece that the move took.
pub uninterp spec fn position_after(
    state: State,
    side: Side,
    hands: MochigomaCollections,
    m: AppliedMove,
) -> (State, MochigomaCollections, Option<MochigomaKind>);

/// What `Rule::win_only_moves` returns: the moves of `side` that take the
/// opposing king.
pub uninterp spec fn winning_moves(side: Side, state: State) -> Seq<LegalMove>;

/// What `Rule::oute_only_moves_all` returns: the moves of `side` that give
/// check, or the winning moves where there are any.
pub uninterp spec fn checking_moves(side: Side, state: State, hands: MochigomaCollections) -> Seq<LegalMove>;

/// What `Rule::is_nyugyoku_win` returns when no time limit is given: whether
/// `side` may declare a win by an entering king.
pub uninterp spec fn entering_king_win(state: State, side: Side, hands: MochigomaCollections) -> bool;

/// Whether `m` is the applied form of a move that the engine generates for
/// `side` in this position.
pub open spec fn is_generated(side: Side, state: State, hands: MochigomaCollections, m: AppliedMove) -> bool {
    exists|g: LegalMove| #[trigger]
        generated_moves(side, state, hands).contains(g) && applied_form(g) == m
}

/// Whether `state` is the board of a playable position of `side`.
pub open spec fn playable_board(side: Side, state: State) -> bool {
    exists|hands: MochigomaCollections| #[trigger] playable(side, state, hands)
}

/// Calls `Rule::legal_moves_all`. The engine fills a buffer of 593 moves in
/// a fixed order and copies it out in that order; the seed it takes from the
/// clock serves only draws that this call does not make. So the result is a
/// function of the arguments, and the contract names it.
#[verifier::external_body]
pub(crate) fn legal_moves(side: Side, state: &State, hands: &MochigomaCollections) -> (moves: Vec<LegalMove>)
    requires
        playable(side, *state, *hands),
    ensures
        moves@ == generated_moves(side, *state, *hands),
{
    let teban = match side {
        Side::First => Teban::Sente,
        Side::Second => Teban::Gote,
    };
    Rule::legal_moves_all(teban, state, hands)
}

/// Calls `LegalMove::to_applied_move`, which keeps the squares, the
/// promotion and the dropped piece of a move and forgets what it captures.
#[verifier::external_body]
pub(crate) fn to_applied_move(m: LegalMove) -> (applied: AppliedMove)
    ensures
        applied == applied_form(m),
{
    m.to_applied_move()
}

/// Calls `Rule::apply_move_none_check`, which builds the next position
/// without asking whether the move is legal. The contract admits only moves
/// that the engine generated for this very position, and names the result.
/// That the result is playable for the other player says nothing new of the
/// engine: a line of the engine's moves from the position reached is the
/// rest of such a line from the position given, which `playable` covers.
#[verifier::external_body]
pub(crate) fn apply_move(
    state: &State,
    side: Side,
    hands: &MochigomaCollections,
    m: AppliedMove,
) -> (next: (State, MochigomaCollections, Option<MochigomaKind>))
    requires
        playable(side, *state, *hands),
        is_generated(side, *state, *hands, m),
    ensures
        next == position_after(*state, side, *hands, m),
        playable(side.flipped(), next.0, next.1),
{
    let teban = match side {
        Side::First => Teban::Sente,
        Side::Second => Teban::Gote,
    };
    Rule::apply_move_none_check(state, teban, hands, m)
}

/// Calls `Rule::win_only_moves`, which walks the board in a fixed order and
/// collects the moves that take the king. The result is a function of the
/// arguments, and the contract names it.
#[verifier::external_body]
pub(crate) fn win_only_moves(side: Side, state: &State) -> (moves: Vec<LegalMove>)
    requires
        playable_board(side, *state),
    ensures
        moves@ == winning_moves(side, *state),
{
    let teban = match side {
        Side::First => Teban::Sente,
        Side::Second => Teban::Gote,
    };
    Rule::win_only_moves(teban, state)
}

/// Calls `Rule::oute_only_moves_all`, which returns the winning moves where
/// there are any and else the generated moves that give check, in the order
/// of generation. The result is a function of the arguments, and the
/// contract names it.
#[verifier::external_body]
pub(crate) fn oute_only_moves_all(side: Side, state: &State, hands: &MochigomaCollections) -> (moves: Vec<LegalMove>)
    requires
        playable(side, *state, *hands),
    ensures
        moves@ == checking_moves(side, *state, *hands),
{
    let teban = match side {
        Side::First => Teban::Sente,
        Side::Second => Teban::Gote,
    };
    Rule::oute_only_moves_all(teban, state, hands)
}

/// Calls `Rule::is_nyugyoku_win`. With a time limit the engine compares it
/// with the clock; without one the answer is a function of the position,
/// and the contract names it for that case only.
#[verifier::external_body]
pub(crate) fn is_nyugyoku_win(
    state: &State,
    side: Side,
    hands: &MochigomaCollections,
    limit: &Option<Instant>,
) -> (won: bool)
    requires
        playable(side, *state, *hands),
    ensures
        limit is None ==> won == entering_king_win(*state, side, *hands),
{
    let teban = match side {
        Side::First => Teban::Sente,
        Side::Second => Teban::Gote,
    };
    Rule::is_nyugyoku_win(state, teban, hands, limit)
}

} // verus!
