//! Plot actions and the round matchup rule.
//!
//! The three actions dominate each other cyclically: Assassination beats
//! Bribery, Bribery beats Rebellion, Rebellion beats Assassination. A round
//! win pays a bonus keyed by the winner's own action; the loser pays a fixed
//! penalty; a draw pays both players a small bonus.

use vstd::prelude::*;
use crate::Error;

verus! {

/// Prestige gained for a winning assassination.
pub const ASSASSINATION_PRESTIGE: i128 = 30;
/// Prestige gained for a winning bribery.
pub const BRIBERY_PRESTIGE: i128 = 15;
/// Prestige gained for a winning rebellion.
pub const REBELLION_PRESTIGE: i128 = 20;
/// Prestige lost by the player whose plot was countered.
pub const FAILED_PLOT_PENALTY: i128 = 10;
/// Prestige gained by both players when their actions draw.
pub const DRAW_PRESTIGE: i128 = 5;

/// One of the three mutually-cyclic intrigue actions.
///
/// At the public boundary an action travels as a raw tag in {0, 1, 2};
/// [`PlotAction::from_tag`] performs the range validation.
#[derive(Clone, Copy, Debug, PartialEq, Eq, Structural)]
pub enum PlotAction {
    Assassination,
    Bribery,
    Rebellion,
}

impl PlotAction {
    /// The raw tag this action travels as at the public boundary.
    pub open spec fn spec_tag(self) -> u32 {
        match self {
            PlotAction::Assassination => 0,
            PlotAction::Bribery => 1,
            PlotAction::Rebellion => 2,
        }
    }

    /// The action behind a raw tag; meaningful only for tags in {0, 1, 2}.
    pub open spec fn spec_from_tag(tag: u32) -> PlotAction
        recommends tag <= 2,
    {
        if tag == 0 {
            PlotAction::Assassination
        } else if tag == 1 {
            PlotAction::Bribery
        } else {
            PlotAction::Rebellion
        }
    }

    /// Validate a raw tag: tags outside the closed set {0, 1, 2} are rejected
    /// with [`Error::InvalidAction`].
    pub fn from_tag(tag: u32) -> (r: Result<PlotAction, Error>)
        ensures
            tag <= 2 ==> r == Ok::<PlotAction, Error>(PlotAction::spec_from_tag(tag)),
            tag > 2 ==> r == Err::<PlotAction, Error>(Error::InvalidAction),
    {
        match tag {
            0 => Ok(PlotAction::Assassination),
            1 => Ok(PlotAction::Bribery),
            2 => Ok(PlotAction::Rebellion),
            _ => Err(Error::InvalidAction),
        }
    }

    /// The raw tag this action travels as at the public boundary.
    pub fn tag(self) -> (r: u32)
        ensures r == self.spec_tag(),
    {
        match self {
            PlotAction::Assassination => 0,
            PlotAction::Bribery => 1,
            PlotAction::Rebellion => 2,
        }
    }

    /// Cyclic dominance: Assassination beats Bribery, Bribery beats
    /// Rebellion, Rebellion beats Assassination.
    pub open spec fn spec_beats(self, other: PlotAction) -> bool {
        ||| (self is Assassination && other is Bribery)
        ||| (self is Bribery && other is Rebellion)
        ||| (self is Rebellion && other is Assassination)
    }

    /// The prestige bonus a player earns when this action wins the round.
    pub open spec fn spec_win_bonus(self) -> int {
        match self {
            PlotAction::Assassination => ASSASSINATION_PRESTIGE as int,
            PlotAction::Bribery => BRIBERY_PRESTIGE as int,
            PlotAction::Rebellion => REBELLION_PRESTIGE as int,
        }
    }
}

/// Prestige delta for the first player of the ordered action pair `(a, b)`.
pub open spec fn spec_delta_a(a: PlotAction, b: PlotAction) -> int {
    if a == b {
        DRAW_PRESTIGE as int
    } else if a.spec_beats(b) {
        a.spec_win_bonus()
    } else {
        -FAILED_PLOT_PENALTY
    }
}

/// Prestige delta for the second player of the ordered action pair `(a, b)`.
pub open spec fn spec_delta_b(a: PlotAction, b: PlotAction) -> int {
    if a == b {
        DRAW_PRESTIGE as int
    } else if a.spec_beats(b) {
        -FAILED_PLOT_PENALTY
    } else {
        b.spec_win_bonus()
    }
}

/// Compute both players' prestige deltas for one resolved round.
///
/// The matchup matrix, for `(a, b)` ranging over all nine ordered pairs:
/// a draw pays `(+5, +5)`; when `a` beats `b` the pair is
/// `(+{30, 15, 20 keyed by a}, -10)`; when `b` beats `a` it is
/// `(-10, +{30, 15, 20 keyed by b})`.
pub fn round_deltas(a: PlotAction, b: PlotAction) -> (r: (i128, i128))
    ensures
        r.0 == spec_delta_a(a, b),
        r.1 == spec_delta_b(a, b),
{
    if a == b {
        (DRAW_PRESTIGE, DRAW_PRESTIGE)
    } else if (matches!(a, PlotAction::Assassination) && matches!(b, PlotAction::Bribery))
        || (matches!(a, PlotAction::Bribery) && matches!(b, PlotAction::Rebellion))
        || (matches!(a, PlotAction::Rebellion) && matches!(b, PlotAction::Assassination))
    {
        let bonus = match a {
            PlotAction::Assassination => ASSASSINATION_PRESTIGE,
            PlotAction::Bribery => BRIBERY_PRESTIGE,
            PlotAction::Rebellion => REBELLION_PRESTIGE,
        };
        (bonus, -FAILED_PLOT_PENALTY)
    } else {
        let bonus = match b {
            PlotAction::Assassination => ASSASSINATION_PRESTIGE,
            PlotAction::Bribery => BRIBERY_PRESTIGE,
            PlotAction::Rebellion => REBELLION_PRESTIGE,
        };
        (-FAILED_PLOT_PENALTY, bonus)
    }
}

/// Both deltas stay within one win bonus in magnitude, whatever the pair.
pub proof fn lemma_delta_bounds(a: PlotAction, b: PlotAction)
    ensures
        -FAILED_PLOT_PENALTY <= spec_delta_a(a, b) <= ASSASSINATION_PRESTIGE,
        -FAILED_PLOT_PENALTY <= spec_delta_b(a, b) <= ASSASSINATION_PRESTIGE,
{
}

} // verus!
