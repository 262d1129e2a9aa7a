//! The reconciliation loop's belief about the player and the decision taken on
//! each tick.
use vstd::prelude::*;

use crate::player::{paused_sense, PlayerState};

verus! {

/// What one tick did.
#[derive(Clone, Copy, Debug, PartialEq, Eq, Structural)]
pub enum TickAction {
    /// Nothing: belief and desire agree, or the live reading said nothing.
    Idle,
    /// The player already stood where it should: belief follows it, no command.
    Absorb,
    /// The toggle command is to be sent; belief flips.
    Toggle,
}

/// The player ought to be paused exactly while another session plays.
pub open spec fn desired_paused(other_playing: bool) -> bool {
    other_playing
}

/// The belief seeded from the startup reading: paused unless it says playing.
pub open spec fn seed_belief(startup: PlayerState) -> bool {
    startup != PlayerState::Playing
}

/// The decision of one tick, from the belief held on entry, whether another
/// session plays, and the live reading of the player.
pub open spec fn tick_action(belief: bool, other_playing: bool, observed: PlayerState) -> TickAction {
    if desired_paused(other_playing) == belief {
        TickAction::Idle
    } else {
        match paused_sense(observed) {
            None => TickAction::Idle,
            Some(actual_paused) => if actual_paused == belief {
                TickAction::Toggle
            } else {
                TickAction::Absorb
            },
        }
    }
}

/// The belief held after one tick.
pub open spec fn belief_after(belief: bool, other_playing: bool, observed: PlayerState) -> bool {
    match tick_action(belief, other_playing, observed) {
        TickAction::Idle => belief,
        TickAction::Absorb => desired_paused(other_playing),
        TickAction::Toggle => !belief,
    }
}

/// The state that the loop carries from one tick to the next.
pub struct Reconciler {
    should_be_paused: bool,
}

impl Reconciler {
    /// Whether the loop currently intends the player to be paused.
    pub closed spec fn belief(&self) -> bool {
        self.should_be_paused
    }

    /// Seeds the belief from the player's state as read once at startup.
    pub fn seed(startup: PlayerState) -> (r: Reconciler)
        ensures
            r.belief() == seed_belief(startup),
    {
        Reconciler { should_be_paused: !startup.is_playing() }
    }

    /// Whether the loop currently intends the player to be paused.
    pub fn should_be_paused(&self) -> (r: bool)
        ensures
            r == self.belief(),
    {
        self.should_be_paused
    }

    /// Whether this tick needs a live reading of the player: only when the
    /// desired state and the belief disagree. Where it does not, `tick` ignores
    /// the reading it is given.
    pub fn needs_probe(&self, other_playing: bool) -> (r: bool)
        ensures
            r == (desired_paused(other_playing) != self.belief()),
    {
        other_playing != self.should_be_paused
    }

    /// Runs the decision of one tick. The caller sends the toggle command when
    /// `Toggle` comes back; the belief has then already flipped, whatever the
    /// command's outcome.
    pub fn tick(&mut self, other_playing: bool, observed: PlayerState) -> (a: TickAction)
        ensures
            a == tick_action(old(self).belief(), other_playing, observed),
            final(self).belief() == belief_after(old(self).belief(), other_playing, observed),
    {
        let desired = other_playing;
        if desired == self.should_be_paused {
            return TickAction::Idle;
        }
        match observed {
            PlayerState::Unknown => TickAction::Idle,
            _ => {
                let actual_paused = !observed.is_playing();
                if actual_paused == self.should_be_paused {
                    self.should_be_paused = !self.should_be_paused;
                    TickAction::Toggle
                } else {
                    self.should_be_paused = desired;
                    TickAction::Absorb
                }
            },
        }
    }
}

/// The belief and the number of toggle commands after a run of ticks, each
/// given as whether another session played and the live reading.
pub open spec fn run(belief: bool, ticks: Seq<(bool, PlayerState)>) -> (bool, nat)
    decreases ticks.len(),
{
    if ticks.len() == 0 {
        (belief, 0)
    } else {
        let (other, observed) = ticks[0];
        let rest = run(belief_after(belief, other, observed), ticks.drop_first());
        let sent: nat = if tick_action(belief, other, observed) == TickAction::Toggle {
            1
        } else {
            0
        };
        (rest.0, rest.1 + sent)
    }
}

/// When the desired state already agrees with the belief on entry, a tick
/// sends nothing and leaves the belief as it was.
pub proof fn lemma_agreement_is_idle(belief: bool, other_playing: bool, observed: PlayerState)
    requires
        desired_paused(other_playing) == belief,
    ensures
        tick_action(belief, other_playing, observed) == TickAction::Idle,
        belief_after(belief, other_playing, observed) == belief,
{
}

/// A live reading that says nothing never leads to a command, and leaves the
/// belief as it was, whether or not another session plays.
pub proof fn lemma_unknown_is_safe(belief: bool, other_playing: bool)
    ensures
        tick_action(belief, other_playing, PlayerState::Unknown) == TickAction::Idle,
        belief_after(belief, other_playing, PlayerState::Unknown) == belief,
{
}

/// Where the player already stands in the desired state, though the belief
/// says otherwise (someone else paused or resumed it), the belief follows the
/// player and no command is sent.
pub proof fn lemma_external_change_absorbed(belief: bool, other_playing: bool, observed: PlayerState)
    requires
        desired_paused(other_playing) != belief,
        paused_sense(observed) == Some(desired_paused(other_playing)),
    ensures
        tick_action(belief, other_playing, observed) == TickAction::Absorb,
        belief_after(belief, other_playing, observed) == desired_paused(other_playing),
{
}

/// After a tick whose live reading says something, the belief matches the
/// desired state, whether a command was sent or not.
pub proof fn lemma_known_reading_converges(belief: bool, other_playing: bool, observed: PlayerState)
    requires
        paused_sense(observed) is Some,
    ensures
        belief_after(belief, other_playing, observed) == desired_paused(other_playing),
{
}

/// Once the belief matches a session that keeps playing, no further tick
/// sends anything or changes the belief.
pub proof fn lemma_settled_run_is_quiet(ticks: Seq<(bool, PlayerState)>)
    requires
        forall|i: int| 0 <= i < ticks.len() ==> (#[trigger] ticks[i]).0,
    ensures
        run(true, ticks) == (true, 0nat),
    decreases ticks.len(),
{
    if ticks.len() > 0 {
        let rest = ticks.drop_first();
        assert forall|i: int| 0 <= i < rest.len() implies (#[trigger] rest[i]).0 by {
            assert(rest[i] == ticks[i + 1]);
        }
        lemma_settled_run_is_quiet(rest);
    }
}

/// From a belief of "not paused", while another session keeps playing, a run
/// of ticks sends the toggle command at most once, whatever the readings.
pub proof fn lemma_at_most_one_toggle_per_drift(ticks: Seq<(bool, PlayerState)>)
    requires
        forall|i: int| 0 <= i < ticks.len() ==> (#[trigger] ticks[i]).0,
    ensures
        run(false, ticks).1 <= 1,
    decreases ticks.len(),
{
    if ticks.len() > 0 {
        let rest = ticks.drop_first();
        assert forall|i: int| 0 <= i < rest.len() implies (#[trigger] rest[i]).0 by {
            assert(rest[i] == ticks[i + 1]);
        }
        assert(ticks[0].0);
        if belief_after(false, ticks[0].0, ticks[0].1) {
            lemma_settled_run_is_quiet(rest);
        } else {
            lemma_at_most_one_toggle_per_drift(rest);
        }
    }
}

/// From a belief of "not paused", when another session starts playing and
/// keeps playing while the player reports playing at the first tick, a run of
/// ticks sends the toggle command exactly once and ends believing "paused".
pub proof fn lemma_one_toggle_per_drift(ticks: Seq<(bool, PlayerState)>)
    requires
        ticks.len() >= 1,
        forall|i: int| 0 <= i < ticks.len() ==> (#[trigger] ticks[i]).0,
        ticks[0].1 == PlayerState::Playing,
    ensures
        run(false, ticks) == (true, 1nat),
{
    let rest = ticks.drop_first();
    assert forall|i: int| 0 <= i < rest.len() implies (#[trigger] rest[i]).0 by {
        assert(rest[i] == ticks[i + 1]);
    }
    assert(ticks[0].0);
    assert(tick_action(false, ticks[0].0, ticks[0].1) == TickAction::Toggle);
    lemma_settled_run_is_quiet(rest);
}

} // verus!
