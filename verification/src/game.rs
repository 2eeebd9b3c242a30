//! The per-session state machine.
//!
//! A session walks through rounds of commit, verify, resolve. Each transition
//! is stated twice: a spec function gives the mathematical step (new state or
//! error), and the executable method is proved to follow it exactly. A failed
//! step leaves the state untouched, so a caller that persists the state only
//! on success never stores a partial update.

use vstd::prelude::*;
use crate::Error;
use crate::action::ASSASSINATION_PRESTIGE;
use crate::action::PlotAction;
use crate::action::lemma_delta_bounds;
use crate::action::round_deltas;
use crate::action::spec_delta_a;
use crate::action::spec_delta_b;

verus! {

/// Maximum number of rounds a session may run.
pub const MAX_ROUNDS: u32 = 3;
/// Prestige score both players start with.
pub const STARTING_PRESTIGE: i128 = 50;

/// Clamp a prestige total at the floor of zero.
pub open spec fn spec_floor0(x: int) -> int {
    if x < 0 { 0 } else { x }
}

/// One two-party session, keyed externally by its session identifier.
///
/// Player identities and point stakes are fixed at creation; prestige,
/// the per-round commitment and verification slots, the round counter and
/// the termination fields evolve through the three transitions.
#[derive(Clone, Copy, Debug)]
pub struct GameState {
    pub player1: u64,
    pub player2: u64,
    pub player1_points: i128,
    pub player2_points: i128,
    pub player1_prestige: i128,
    pub player2_prestige: i128,
    pub player1_plot_hash: Option<[u8; 32]>,
    pub player2_plot_hash: Option<[u8; 32]>,
    pub player1_plot_verified: bool,
    pub player2_plot_verified: bool,
    pub player1_action: Option<PlotAction>,
    pub player2_action: Option<PlotAction>,
    pub round: u32,
    pub ended: bool,
    pub winner: Option<u64>,
}

impl GameState {
    /// The largest prestige a player can have accumulated by this point:
    /// the starting score plus the best win bonus for every resolved round.
    pub open spec fn spec_prestige_bound(self) -> int {
        if self.ended {
            STARTING_PRESTIGE + ASSASSINATION_PRESTIGE * self.round
        } else {
            STARTING_PRESTIGE + ASSASSINATION_PRESTIGE * (self.round - 1)
        }
    }

    /// Well-formedness: every session created by [`GameState::new`] satisfies
    /// this, and every transition preserves it.
    pub open spec fn wf(self) -> bool {
        &&& self.player1 != self.player2
        &&& 1 <= self.round <= MAX_ROUNDS
        &&& 0 <= self.player1_prestige <= self.spec_prestige_bound()
        &&& 0 <= self.player2_prestige <= self.spec_prestige_bound()
        &&& (self.player1_plot_verified ==> self.player1_plot_hash is Some)
        &&& (self.player2_plot_verified ==> self.player2_plot_hash is Some)
        &&& (self.player1_action is Some <==> self.player1_plot_verified)
        &&& (self.player2_action is Some <==> self.player2_plot_verified)
        &&& (self.winner is Some <==> self.ended)
        &&& (self.ended ==> self.winner == Some(self.player1) || self.winner == Some(self.player2))
    }

    /// The state of a freshly started session.
    pub open spec fn spec_new(
        player1: u64,
        player2: u64,
        player1_points: i128,
        player2_points: i128,
    ) -> GameState {
        GameState {
            player1,
            player2,
            player1_points,
            player2_points,
            player1_prestige: STARTING_PRESTIGE,
            player2_prestige: STARTING_PRESTIGE,
            player1_plot_hash: None,
            player2_plot_hash: None,
            player1_plot_verified: false,
            player2_plot_verified: false,
            player1_action: None,
            player2_action: None,
            round: 1,
            ended: false,
            winner: None,
        }
    }

    /// Start a session: prestige 50 against 50, round 1, no commitments,
    /// not ended. The players must be distinct; the caller validates that
    /// (and reports `SamePlayer`) before constructing the state.
    pub fn new(
        player1: u64,
        player2: u64,
        player1_points: i128,
        player2_points: i128,
    ) -> (g: GameState)
        requires
            player1 != player2,
        ensures
            g == GameState::spec_new(player1, player2, player1_points, player2_points),
            g.wf(),
    {
        GameState {
            player1,
            player2,
            player1_points,
            player2_points,
            player1_prestige: STARTING_PRESTIGE,
            player2_prestige: STARTING_PRESTIGE,
            player1_plot_hash: None,
            player2_plot_hash: None,
            player1_plot_verified: false,
            player2_plot_verified: false,
            player1_action: None,
            player2_action: None,
            round: 1,
            ended: false,
            winner: None,
        }
    }

    /// The commit transition: store one commitment hash in the acting
    /// player's slot for the current round.
    pub open spec fn spec_commit(self, player: u64, plot_hash: [u8; 32]) -> Result<GameState, Error> {
        if self.ended {
            Err(Error::SessionEnded)
        } else if player == self.player1 {
            if self.player1_plot_hash is Some {
                Err(Error::AlreadyCommitted)
            } else {
                Ok(GameState { player1_plot_hash: Some(plot_hash), ..self })
            }
        } else if player == self.player2 {
            if self.player2_plot_hash is Some {
                Err(Error::AlreadyCommitted)
            } else {
                Ok(GameState { player2_plot_hash: Some(plot_hash), ..self })
            }
        } else {
            Err(Error::NotPlayer)
        }
    }

    /// Record `player`'s commitment hash for the current round.
    ///
    /// Fails with `SessionEnded` once the session is over, `NotPlayer` for a
    /// stranger, and `AlreadyCommitted` if the slot is already filled; the
    /// first commitment is then left unchanged. A failure leaves the whole
    /// state untouched.
    pub fn commit_plot(&mut self, player: u64, plot_hash: [u8; 32]) -> (r: Result<(), Error>)
        requires
            old(self).wf(),
        ensures
            final(self).wf(),
            match old(self).spec_commit(player, plot_hash) {
                Ok(g) => r is Ok && *final(self) == g,
                Err(e) => r == Err::<(), Error>(e) && *final(self) == *old(self),
            },
    {
        if self.ended {
            return Err(Error::SessionEnded);
        }
        if player == self.player1 {
            if self.player1_plot_hash.is_some() {
                return Err(Error::AlreadyCommitted);
            }
            self.player1_plot_hash = Some(plot_hash);
        } else if player == self.player2 {
            if self.player2_plot_hash.is_some() {
                return Err(Error::AlreadyCommitted);
            }
            self.player2_plot_hash = Some(plot_hash);
        } else {
            return Err(Error::NotPlayer);
        }
        Ok(())
    }

    /// The verify transition: reveal the action behind `player`'s commitment
    /// once the (placeholder) proof verifier accepts the commitment.
    pub open spec fn spec_verify(
        self,
        player: u64,
        action_tag: u32,
        commitment: [u8; 32],
    ) -> Result<GameState, Error> {
        if self.ended {
            Err(Error::SessionEnded)
        } else if player != self.player1 && player != self.player2 {
            Err(Error::NotPlayer)
        } else if action_tag > 2 {
            Err(Error::InvalidAction)
        } else if player == self.player1 {
            match self.player1_plot_hash {
                None => Err(Error::PlotNotCommitted),
                Some(stored) => if stored == commitment {
                    Ok(GameState {
                        player1_plot_verified: true,
                        player1_action: Some(PlotAction::spec_from_tag(action_tag)),
                        ..self
                    })
                } else {
                    Err(Error::InvalidProof)
                },
            }
        } else {
            match self.player2_plot_hash {
                None => Err(Error::PlotNotCommitted),
                Some(stored) => if stored == commitment {
                    Ok(GameState {
                        player2_plot_verified: true,
                        player2_action: Some(PlotAction::spec_from_tag(action_tag)),
                        ..self
                    })
                } else {
                    Err(Error::InvalidProof)
                },
            }
        }
    }

    /// Reveal and record the action behind `player`'s commitment.
    ///
    /// The action travels as a raw tag and is rejected with `InvalidAction`
    /// outside {0, 1, 2}. The proof verifier (a placeholder, see
    /// [`proof_accepts`]) must accept `commitment` against the stored plot
    /// hash; on a mismatch the transition fails with `InvalidProof`. Only
    /// here does the action type become visible. A failure leaves the whole
    /// state untouched.
    pub fn verify_plot(
        &mut self,
        player: u64,
        action_tag: u32,
        proof_data: &Vec<u8>,
        commitment: [u8; 32],
    ) -> (r: Result<bool, Error>)
        requires
            old(self).wf(),
        ensures
            final(self).wf(),
            match old(self).spec_verify(player, action_tag, commitment) {
                Ok(g) => r == Ok::<bool, Error>(true) && *final(self) == g,
                Err(e) => r == Err::<bool, Error>(e) && *final(self) == *old(self),
            },
    {
        if self.ended {
            return Err(Error::SessionEnded);
        }
        if player != self.player1 && player != self.player2 {
            return Err(Error::NotPlayer);
        }
        let action = match PlotAction::from_tag(action_tag) {
            Ok(action) => action,
            Err(e) => {
                return Err(e);
            },
        };
        if player == self.player1 {
            let stored = match &self.player1_plot_hash {
                Some(stored) => *stored,
                None => {
                    return Err(Error::PlotNotCommitted);
                },
            };
            if !proof_accepts(&stored, action, proof_data, &commitment) {
                return Err(Error::InvalidProof);
            }
            self.player1_plot_verified = true;
            self.player1_action = Some(action);
        } else {
            let stored = match &self.player2_plot_hash {
                Some(stored) => *stored,
                None => {
                    return Err(Error::PlotNotCommitted);
                },
            };
            if !proof_accepts(&stored, action, proof_data, &commitment) {
                return Err(Error::InvalidProof);
            }
            self.player2_plot_verified = true;
            self.player2_action = Some(action);
        }
        Ok(true)
    }

    /// The state after a successful resolution: prestige adjusted by the
    /// matchup deltas and floored at zero, the per-round slots cleared, and
    /// either the round advanced or the session ended with a winner.
    ///
    /// Termination: the session ends exactly when the resolved round was the
    /// last one allowed, or either new prestige total hit zero. The winner is
    /// the player with the higher final prestige; a tie favours player one.
    pub open spec fn spec_resolved_state(self) -> GameState
        recommends
            self.player1_action is Some,
            self.player2_action is Some,
    {
        let a = self.player1_action->Some_0;
        let b = self.player2_action->Some_0;
        let p1 = spec_floor0(self.player1_prestige + spec_delta_a(a, b));
        let p2 = spec_floor0(self.player2_prestige + spec_delta_b(a, b));
        let terminal = self.round >= MAX_ROUNDS || p1 == 0 || p2 == 0;
        GameState {
            player1_prestige: p1 as i128,
            player2_prestige: p2 as i128,
            player1_plot_hash: None,
            player2_plot_hash: None,
            player1_plot_verified: false,
            player2_plot_verified: false,
            player1_action: None,
            player2_action: None,
            round: if terminal { self.round } else { (self.round + 1) as u32 },
            ended: terminal,
            winner: if terminal {
                if p1 >= p2 { Some(self.player1) } else { Some(self.player2) }
            } else {
                None
            },
            ..self
        }
    }

    /// The resolve transition: consume both revealed actions and either
    /// advance to the next round or end the session.
    pub open spec fn spec_resolve(self) -> Result<GameState, Error> {
        if self.ended {
            Err(Error::SessionEnded)
        } else if !(self.player1_plot_verified && self.player2_plot_verified) {
            Err(Error::PlayersNotReady)
        } else {
            Ok(self.spec_resolved_state())
        }
    }

    /// Resolve the current round after both players verified their plots.
    ///
    /// Fails with `SessionEnded` once the session is over and with
    /// `PlayersNotReady` unless both verified flags are set; a failure leaves
    /// the whole state untouched. On success the state becomes
    /// [`GameState::spec_resolved_state`]: both prestige totals move by the
    /// matchup deltas (floored at zero), the commitment and verification
    /// slots of both players are cleared, and the session either advances by
    /// exactly one round or ends with the winner recorded.
    pub fn resolve_round(&mut self) -> (r: Result<(), Error>)
        requires
            old(self).wf(),
        ensures
            final(self).wf(),
            match old(self).spec_resolve() {
                Ok(g) => r is Ok && *final(self) == g,
                Err(e) => r == Err::<(), Error>(e) && *final(self) == *old(self),
            },
    {
        if self.ended {
            return Err(Error::SessionEnded);
        }
        if !self.player1_plot_verified || !self.player2_plot_verified {
            return Err(Error::PlayersNotReady);
        }
        let a = self.player1_action.unwrap();
        let b = self.player2_action.unwrap();
        let (d1, d2) = round_deltas(a, b);
        proof {
            lemma_delta_bounds(a, b);
        }
        let mut p1 = self.player1_prestige + d1;
        if p1 < 0 {
            p1 = 0;
        }
        let mut p2 = self.player2_prestige + d2;
        if p2 < 0 {
            p2 = 0;
        }
        let terminal = self.round >= MAX_ROUNDS || p1 == 0 || p2 == 0;
        self.player1_prestige = p1;
        self.player2_prestige = p2;
        self.player1_plot_hash = None;
        self.player2_plot_hash = None;
        self.player1_plot_verified = false;
        self.player2_plot_verified = false;
        self.player1_action = None;
        self.player2_action = None;
        if terminal {
            self.ended = true;
            self.winner = if p1 >= p2 { Some(self.player1) } else { Some(self.player2) };
        } else {
            self.round = self.round + 1;
        }
        Ok(())
    }
}

/// Compare two 32-byte hashes for equality.
fn bytes32_eq(a: &[u8; 32], b: &[u8; 32]) -> (r: bool)
    ensures
        r <==> *a == *b,
{
    let mut i: usize = 0;
    while i < 32
        invariant
            0 <= i <= 32,
            forall|j: int| 0 <= j < i ==> a@[j] == b@[j],
        decreases 32 - i,
    {
        if a[i] != b[i] {
            return false;
        }
        i = i + 1;
    }
    proof {
        assert(*a =~= *b);
    }
    true
}

/// The proof verifier the verification gate runs.
///
/// This is a stated placeholder, not a real zero-knowledge check: it accepts
/// exactly when the public commitment equals the stored plot hash, and reads
/// neither the proof bytes nor the revealed action. A real verifier can be
/// substituted here without touching the state machine.
#[allow(unused_variables)]
pub fn proof_accepts(
    stored_hash: &[u8; 32],
    action: PlotAction,
    proof_data: &Vec<u8>,
    commitment: &[u8; 32],
) -> (r: bool)
    ensures
        r <==> *stored_hash == *commitment,
{
    bytes32_eq(stored_hash, commitment)
}

} // verus!
