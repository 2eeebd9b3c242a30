//! Laws of the session state machine.
//!
//! Each proof function here states a guarantee of the protocol as a whole —
//! across transitions, over every well-formed state — rather than of a single
//! call. They are proved from the spec transitions in [`crate::game`] and
//! [`crate::action`], which the executable methods are proved to follow.

use vstd::prelude::*;
use crate::Error;
use crate::action::DRAW_PRESTIGE;
use crate::action::FAILED_PLOT_PENALTY;
use crate::action::PlotAction;
use crate::action::spec_delta_a;
use crate::action::spec_delta_b;
use crate::game::GameState;
use crate::game::MAX_ROUNDS;

verus! {

/// Prestige never goes negative: after any successful resolution of a
/// well-formed session, both prestige totals are at least zero (and every
/// other transition leaves them untouched).
pub proof fn lemma_resolution_prestige_nonnegative(g: GameState)
    requires
        g.wf(),
        g.spec_resolve() is Ok,
    ensures
        g.spec_resolve()->Ok_0.player1_prestige >= 0,
        g.spec_resolve()->Ok_0.player2_prestige >= 0,
{
}

/// A player who already committed in the current round cannot commit again:
/// the second commitment fails with `AlreadyCommitted`, and the first
/// commitment still stands in that player's slot.
pub proof fn lemma_commit_twice_rejected(
    g: GameState,
    player: u64,
    first_hash: [u8; 32],
    second_hash: [u8; 32],
)
    requires
        g.wf(),
        g.spec_commit(player, first_hash) is Ok,
    ensures
        ({
            let g1 = g.spec_commit(player, first_hash)->Ok_0;
            &&& g1.spec_commit(player, second_hash)
                == Err::<GameState, Error>(Error::AlreadyCommitted)
            &&& (player == g.player1 ==> g1.player1_plot_hash == Some(first_hash))
            &&& (player == g.player2 ==> g1.player2_plot_hash == Some(first_hash))
        }),
{
}

/// Readiness gates resolution: on a live well-formed session, resolution
/// succeeds exactly when both players' verified flags are set, and fails
/// with `PlayersNotReady` otherwise.
pub proof fn lemma_resolution_readiness(g: GameState)
    requires
        g.wf(),
        !g.ended,
    ensures
        g.spec_resolve() is Ok <==> (g.player1_plot_verified && g.player2_plot_verified),
        !(g.player1_plot_verified && g.player2_plot_verified)
            ==> g.spec_resolve() == Err::<GameState, Error>(Error::PlayersNotReady),
{
}

/// The matchup matrix, over all nine ordered action pairs: a draw pays both
/// players the draw bonus; otherwise exactly one action beats the other, the
/// winner earns the bonus keyed by their own action, and the loser pays the
/// fixed penalty.
pub proof fn lemma_matchup_matrix(a: PlotAction, b: PlotAction)
    ensures
        a != b ==> (a.spec_beats(b) <==> !b.spec_beats(a)),
        a == b ==> spec_delta_a(a, b) == DRAW_PRESTIGE as int
            && spec_delta_b(a, b) == DRAW_PRESTIGE as int,
        a.spec_beats(b) ==> spec_delta_a(a, b) == a.spec_win_bonus()
            && spec_delta_b(a, b) == -FAILED_PLOT_PENALTY,
        b.spec_beats(a) ==> spec_delta_a(a, b) == -FAILED_PLOT_PENALTY
            && spec_delta_b(a, b) == b.spec_win_bonus(),
{
}

/// A non-terminal resolution advances the round by exactly one, and every
/// resolution clears both players' commitment and verification fields.
pub proof fn lemma_nonterminal_resolution(g: GameState)
    requires
        g.wf(),
        g.spec_resolve() is Ok,
    ensures
        ({
            let g2 = g.spec_resolve()->Ok_0;
            &&& !g2.ended ==> g2.round == g.round + 1
            &&& g2.player1_plot_hash is None
            &&& g2.player2_plot_hash is None
            &&& !g2.player1_plot_verified
            &&& !g2.player2_plot_verified
            &&& g2.player1_action is None
            &&& g2.player2_action is None
        }),
{
}

/// A resolution ends the session exactly when the resolved round was the
/// last one allowed, or either player's new prestige total hit zero.
pub proof fn lemma_termination_condition(g: GameState)
    requires
        g.wf(),
        g.spec_resolve() is Ok,
    ensures
        ({
            let g2 = g.spec_resolve()->Ok_0;
            g2.ended <==> (g.round >= MAX_ROUNDS || g2.player1_prestige == 0
                || g2.player2_prestige == 0)
        }),
{
}

/// The ended flag is one-way: every transition on an ended session fails
/// with `SessionEnded` and changes nothing. A session therefore enters the
/// ended state at most once, so the end-of-session report the embedding
/// application ties to that transition is made at most once per session.
pub proof fn lemma_ended_is_final(
    g: GameState,
    player: u64,
    plot_hash: [u8; 32],
    action_tag: u32,
    commitment: [u8; 32],
)
    requires
        g.ended,
    ensures
        g.spec_commit(player, plot_hash) == Err::<GameState, Error>(Error::SessionEnded),
        g.spec_verify(player, action_tag, commitment)
            == Err::<GameState, Error>(Error::SessionEnded),
        g.spec_resolve() == Err::<GameState, Error>(Error::SessionEnded),
{
}

/// The winner is the player with the higher final prestige; a tie selects
/// player one.
pub proof fn lemma_winner_rule(g: GameState)
    requires
        g.wf(),
        g.spec_resolve() is Ok,
    ensures
        ({
            let g2 = g.spec_resolve()->Ok_0;
            &&& g2.ended ==> g2.winner == (if g2.player1_prestige >= g2.player2_prestige {
                Some(g.player1)
            } else {
                Some(g.player2)
            })
            &&& (g2.ended && g2.player1_prestige == g2.player2_prestige)
                ==> g2.winner == Some(g.player1)
        }),
{
}

} // verus!
