//! The ways in which a request to the ledger fails.

use vstd::prelude::*;

verus! {

/// Why a request was refused. A refused request changes nothing.
#[derive(Clone, Copy, Debug, PartialEq, Eq, Structural)]
pub enum ContractError {
    /// No challenge has the given id.
    ChallengeNotFound,
    /// No game has the given id.
    GameNotFound,
    /// The challenge is not the caller's to accept or cancel.
    NotYourChallenge,
    /// The caller is not the one who may act now.
    NotYourTurn,
    /// The two players of a game must differ.
    CannotPlaySelf,
    /// The player to move is still within the tick budget.
    GameNotTimedOut,
    /// The game has reached its outcome.
    GameAlreadyOver,
    /// The move is not legal, or the draw action does not fit the pending offer.
    InvalidMove,
}

} // verus!
