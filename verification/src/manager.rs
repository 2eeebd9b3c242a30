//! The session manager: session lifecycle over a keyed in-memory store.
//!
//! Each public operation is one atomic step against one session record: it
//! either completes wholly or fails with an [`Error`] and leaves the store
//! unmodified. Identities are plain numeric values; the embedding
//! application binds them to real addresses, performs authorization before
//! every call, and notifies its oversight hub when a session starts (on a
//! successful `start_session`) and when one ends (on a resolution that sets
//! the ended flag — at most one per session, since an ended session rejects
//! every further operation).

use vstd::prelude::*;
use std::collections::HashMap;
use crate::Error;
use crate::game::GameState;

verus! {

broadcast use vstd::std_specs::hash::group_hash_axioms;

/// The session manager. It owns the stored sessions (keyed by caller-chosen
/// identifier, each unique) and the two configuration identities: the admin
/// and the oversight hub.
pub struct StellarDynasties {
    sessions: HashMap<u32, GameState>,
    admin: u64,
    game_hub: u64,
}

impl StellarDynasties {
    /// The stored sessions, keyed by session identifier.
    pub closed spec fn spec_sessions(self) -> Map<u32, GameState> {
        self.sessions@
    }

    /// The admin identity that gates configuration changes.
    pub closed spec fn spec_admin(self) -> u64 {
        self.admin
    }

    /// The oversight hub identity.
    pub closed spec fn spec_hub(self) -> u64 {
        self.game_hub
    }

    /// Every stored session is well-formed.
    pub open spec fn wf(self) -> bool {
        forall|id: u32| #[trigger] self.spec_sessions().contains_key(id)
            ==> self.spec_sessions()[id].wf()
    }

    /// Set up a manager with no sessions and the given configuration.
    pub fn new(admin: u64, game_hub: u64) -> (s: StellarDynasties)
        ensures
            s.wf(),
            s.spec_sessions() == Map::<u32, GameState>::empty(),
            s.spec_admin() == admin,
            s.spec_hub() == game_hub,
    {
        StellarDynasties { sessions: HashMap::new(), admin, game_hub }
    }

    /// Start a new session between two distinct players.
    ///
    /// Fails with `SamePlayer` when one identity stands on both sides, and
    /// with `AlreadyStarted` when a session is already stored under the
    /// identifier; neither failure stores anything. On success the store
    /// gains exactly one fresh session: prestige 50 against 50, round 1, no
    /// commitments, not ended.
    pub fn start_session(
        &mut self,
        session_id: u32,
        player1: u64,
        player2: u64,
        player1_points: i128,
        player2_points: i128,
    ) -> (r: Result<(), Error>)
        requires
            old(self).wf(),
        ensures
            final(self).wf(),
            final(self).spec_admin() == old(self).spec_admin(),
            final(self).spec_hub() == old(self).spec_hub(),
            player1 == player2 ==> r == Err::<(), Error>(Error::SamePlayer)
                && final(self).spec_sessions() == old(self).spec_sessions(),
            player1 != player2 && old(self).spec_sessions().contains_key(session_id)
                ==> r == Err::<(), Error>(Error::AlreadyStarted)
                && final(self).spec_sessions() == old(self).spec_sessions(),
            player1 != player2 && !old(self).spec_sessions().contains_key(session_id)
                ==> r is Ok
                && final(self).spec_sessions() == old(self).spec_sessions().insert(
                    session_id,
                    GameState::spec_new(player1, player2, player1_points, player2_points),
                ),
    {
        if player1 == player2 {
            return Err(Error::SamePlayer);
        }
        if self.sessions.contains_key(&session_id) {
            return Err(Error::AlreadyStarted);
        }
        let game = GameState::new(player1, player2, player1_points, player2_points);
        self.sessions.insert(session_id, game);
        proof {
            assert forall|id: u32| #[trigger] self.spec_sessions().contains_key(id)
                implies self.spec_sessions()[id].wf() by {
                if id != session_id {
                    assert(old(self).spec_sessions().contains_key(id));
                }
            }
        }
        Ok(())
    }

    /// Record `player`'s commitment hash for the current round of the
    /// stored session; see [`GameState::commit_plot`] for the step itself.
    ///
    /// Fails with `SessionNotFound` when nothing is stored under the
    /// identifier; any failure leaves the store unmodified.
    pub fn commit_plot(
        &mut self,
        session_id: u32,
        player: u64,
        plot_hash: [u8; 32],
    ) -> (r: Result<(), Error>)
        requires
            old(self).wf(),
        ensures
            final(self).wf(),
            final(self).spec_admin() == old(self).spec_admin(),
            final(self).spec_hub() == old(self).spec_hub(),
            !old(self).spec_sessions().contains_key(session_id)
                ==> r == Err::<(), Error>(Error::SessionNotFound)
                && final(self).spec_sessions() == old(self).spec_sessions(),
            old(self).spec_sessions().contains_key(session_id)
                ==> match old(self).spec_sessions()[session_id].spec_commit(player, plot_hash) {
                    Ok(g) => r is Ok
                        && final(self).spec_sessions()
                            == old(self).spec_sessions().insert(session_id, g),
                    Err(e) => r == Err::<(), Error>(e)
                        && final(self).spec_sessions() == old(self).spec_sessions(),
                },
    {
        let mut game = match self.sessions.get(&session_id) {
            Some(g) => *g,
            None => {
                return Err(Error::SessionNotFound);
            },
        };
        match game.commit_plot(player, plot_hash) {
            Ok(()) => {
                self.sessions.insert(session_id, game);
                Ok(())
            },
            Err(e) => Err(e),
        }
    }

    /// Reveal and record the action behind `player`'s commitment in the
    /// stored session; see [`GameState::verify_plot`] for the step itself.
    ///
    /// Fails with `SessionNotFound` when nothing is stored under the
    /// identifier; any failure leaves the store unmodified.
    pub fn verify_plot(
        &mut self,
        session_id: u32,
        player: u64,
        action_tag: u32,
        proof_data: &Vec<u8>,
        commitment: [u8; 32],
    ) -> (r: Result<bool, Error>)
        requires
            old(self).wf(),
        ensures
            final(self).wf(),
            final(self).spec_admin() == old(self).spec_admin(),
            final(self).spec_hub() == old(self).spec_hub(),
            !old(self).spec_sessions().contains_key(session_id)
                ==> r == Err::<bool, Error>(Error::SessionNotFound)
                && final(self).spec_sessions() == old(self).spec_sessions(),
            old(self).spec_sessions().contains_key(session_id)
                ==> match old(self).spec_sessions()[session_id].spec_verify(
                    player,
                    action_tag,
                    commitment,
                ) {
                    Ok(g) => r == Ok::<bool, Error>(true)
                        && final(self).spec_sessions()
                            == old(self).spec_sessions().insert(session_id, g),
                    Err(e) => r == Err::<bool, Error>(e)
                        && final(self).spec_sessions() == old(self).spec_sessions(),
                },
    {
        let mut game = match self.sessions.get(&session_id) {
            Some(g) => *g,
            None => {
                return Err(Error::SessionNotFound);
            },
        };
        match game.verify_plot(player, action_tag, proof_data, commitment) {
            Ok(b) => {
                self.sessions.insert(session_id, game);
                Ok(b)
            },
            Err(e) => Err(e),
        }
    }

    /// Resolve the current round of the stored session and return its full
    /// updated state; see [`GameState::resolve_round`] for the step itself.
    ///
    /// Fails with `SessionNotFound` when nothing is stored under the
    /// identifier; any failure leaves the store unmodified. When the
    /// returned state has its ended flag set, this resolution is the one
    /// transition into the ended state: the embedding application reports
    /// the end of the session (and whether player one won) exactly then.
    pub fn resolve_round(&mut self, session_id: u32) -> (r: Result<GameState, Error>)
        requires
            old(self).wf(),
        ensures
            final(self).wf(),
            final(self).spec_admin() == old(self).spec_admin(),
            final(self).spec_hub() == old(self).spec_hub(),
            !old(self).spec_sessions().contains_key(session_id)
                ==> r == Err::<GameState, Error>(Error::SessionNotFound)
                && final(self).spec_sessions() == old(self).spec_sessions(),
            old(self).spec_sessions().contains_key(session_id)
                ==> match old(self).spec_sessions()[session_id].spec_resolve() {
                    Ok(g) => r == Ok::<GameState, Error>(g)
                        && final(self).spec_sessions()
                            == old(self).spec_sessions().insert(session_id, g),
                    Err(e) => r == Err::<GameState, Error>(e)
                        && final(self).spec_sessions() == old(self).spec_sessions(),
                },
    {
        let mut game = match self.sessions.get(&session_id) {
            Some(g) => *g,
            None => {
                return Err(Error::SessionNotFound);
            },
        };
        match game.resolve_round() {
            Ok(()) => {
                self.sessions.insert(session_id, game);
                Ok(game)
            },
            Err(e) => Err(e),
        }
    }

    /// Return the stored session state: a pure read, no side effects.
    pub fn get_game(&self, session_id: u32) -> (r: Result<GameState, Error>)
        ensures
            self.spec_sessions().contains_key(session_id)
                ==> r == Ok::<GameState, Error>(self.spec_sessions()[session_id]),
            !self.spec_sessions().contains_key(session_id)
                ==> r == Err::<GameState, Error>(Error::SessionNotFound),
    {
        match self.sessions.get(&session_id) {
            Some(g) => Ok(*g),
            None => Err(Error::SessionNotFound),
        }
    }

    /// The oversight hub identity.
    pub fn get_hub(&self) -> (r: u64)
        ensures
            r == self.spec_hub(),
    {
        self.game_hub
    }

    /// The admin identity.
    pub fn get_admin(&self) -> (r: u64)
        ensures
            r == self.spec_admin(),
    {
        self.admin
    }

    /// Replace the admin identity. Authorization of the acting caller as the
    /// current admin is the embedding application's responsibility.
    pub fn set_admin(&mut self, new_admin: u64)
        requires
            old(self).wf(),
        ensures
            final(self).wf(),
            final(self).spec_admin() == new_admin,
            final(self).spec_hub() == old(self).spec_hub(),
            final(self).spec_sessions() == old(self).spec_sessions(),
    {
        self.admin = new_admin;
        proof {
            assert(self.spec_sessions() == old(self).spec_sessions());
        }
    }

    /// Replace the oversight hub identity. Authorization of the acting
    /// caller as the admin is the embedding application's responsibility.
    pub fn set_hub(&mut self, new_hub: u64)
        requires
            old(self).wf(),
        ensures
            final(self).wf(),
            final(self).spec_admin() == old(self).spec_admin(),
            final(self).spec_hub() == new_hub,
            final(self).spec_sessions() == old(self).spec_sessions(),
    {
        self.game_hub = new_hub;
        proof {
            assert(self.spec_sessions() == old(self).spec_sessions());
        }
    }
}

} // verus!
