//! The two players of a game.

use vstd::prelude::*;

verus! {

/// The player whose turn it is.
#[derive(Clone, Copy, Debug, PartialEq, Eq, Structural)]
pub enum Side {
    /// The player who moved first in the game.
    First,
    /// The player who moved second.
    Second,
}

impl Side {
    /// The other player.
    pub open spec fn flipped(self) -> Side {
        match self {
            Side::First => Side::Second,
            Side::Second => Side::First,
        }
    }

    /// Hands the turn to the other player.
    #[verifier::when_used_as_spec(flipped)]
    pub fn opposite(self) -> (other: Side)
        ensures
            other == self.flipped(),
    {
        match self {
            Side::First => Side::Second,
            Side::Second => Side::First,
        }
    }
}

} // verus!
