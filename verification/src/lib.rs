//! Stellar Dynasties: a two-party adversarial session protocol.
//!
//! Each party secretly commits to one of three mutually-cyclic plot actions,
//! later reveals and proves the commitment, and a resolution step computes a
//! score adjustment using rock-paper-scissors-style dominance. Sessions run
//! for a bounded number of rounds or until a prestige score hits zero.
//!
//! The library is the verified session core: action matchups, the per-session
//! state machine, and the session manager that keys sessions by identifier.
//! Host concerns (persistence with expiry, cryptographic authorization,
//! cross-contract notification) live with the embedding application.

use vstd::prelude::*;

pub mod action;
pub mod game;
pub mod laws;
pub mod manager;

pub use crate::action::PlotAction;
pub use crate::game::GameState;
pub use crate::manager::StellarDynasties;

verus! {

/// Closed taxonomy of validation failures. Every failure is local and
/// non-retryable; a failed operation leaves the stored session unmodified.
#[derive(Clone, Copy, Debug, PartialEq, Eq, Structural)]
pub enum Error {
    /// No session is stored under the given identifier (never created,
    /// or already reclaimed by the host's expiry mechanism).
    SessionNotFound,
    /// The acting identity is neither of the session's two players.
    NotPlayer,
    /// The acting player already has a commitment in the current round.
    AlreadyCommitted,
    /// The acting player has no commitment to verify in the current round.
    PlotNotCommitted,
    /// The session's ended flag is set; no further mutation is accepted.
    SessionEnded,
    /// The supplied commitment does not match the stored plot hash.
    InvalidProof,
    /// Resolution was requested before both players verified their plots.
    PlayersNotReady,
    /// The action tag is outside the closed set of three plot actions.
    InvalidAction,
    /// A session cannot be started with one player on both sides.
    SamePlayer,
    /// A session is already stored under the given identifier.
    AlreadyStarted,
}

} // verus!
