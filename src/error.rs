use vstd::prelude::*;

verus! {

/// Why an operation was refused. Every refusal leaves all state untouched.
#[derive(Clone, Copy, Debug, PartialEq, Eq, Structural)]
pub enum ErrorCode {
    /// A bet was attempted while the game is paused.
    GamePaused,
    /// The stake lies outside the configured bounds, or is zero when unbounded.
    InvalidBetAmount,
    /// The chosen number lies outside `1..=6`.
    InvalidNumber,
    /// The caller is not the admin of the game.
    Unauthorized,
    /// A result cannot be represented as a `u64`.
    MathOverflow,
    /// The source of a transfer holds less than the amount moved.
    InsufficientFunds,
}

} // verus!
