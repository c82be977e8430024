//! Exhaustive game-tree enumeration over shogi positions, with counts and
//! timings of the move queries made along the way.

pub mod side;
pub mod oracle;
pub mod clock;
pub mod tree;
pub mod traversal;
pub mod laws;
pub mod lines;
pub mod report;
pub mod bench;
