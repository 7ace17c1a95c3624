//! The stages of an attack-decay-sustain-release envelope.
//!
//! The level of an envelope is a sample value and is kept by the caller.
//! What is decided here is the order of the stages: which level a stage is
//! heading for, and which stage follows once that level has been reached.

use vstd::prelude::*;

verus! {

/// The stage an envelope is in.
#[derive(Clone, Copy, Debug, PartialEq, Eq, Structural)]
pub enum Stage {
    Idle,
    Attack,
    Decay,
    Sustain,
    Release,
}

/// The level a moving stage is heading for.
#[derive(Clone, Copy, Debug, PartialEq, Eq, Structural)]
pub enum Target {
    /// Full level, approached from below during the attack.
    Peak,
    /// The sustain level, approached from above during the decay.
    SustainLevel,
    /// Zero, approached from above during the release.
    Silence,
}

impl Stage {
    /// The position of a stage in the life of a voice, from the attack (0)
    /// to the idle end (4).
    pub open spec fn rank(self) -> nat {
        match self {
            Stage::Attack => 0,
            Stage::Decay => 1,
            Stage::Sustain => 2,
            Stage::Release => 3,
            Stage::Idle => 4,
        }
    }

    /// The level this stage moves towards, if it moves at all.
    pub open spec fn target_spec(self) -> Option<Target> {
        match self {
            Stage::Attack => Some(Target::Peak),
            Stage::Decay => Some(Target::SustainLevel),
            Stage::Release => Some(Target::Silence),
            Stage::Sustain | Stage::Idle => None,
        }
    }

    /// The stage after one tick, given whether the level has reached the
    /// target of the current stage during that tick.
    pub open spec fn after_tick(self, reached: bool) -> Stage {
        if !reached {
            self
        } else {
            match self {
                Stage::Attack => Stage::Decay,
                Stage::Decay => Stage::Sustain,
                Stage::Release => Stage::Idle,
                Stage::Sustain => Stage::Sustain,
                Stage::Idle => Stage::Idle,
            }
        }
    }

    /// The stage after the key has been released: the release for a
    /// running envelope, idle for one that has run out.
    pub open spec fn after_note_off(self) -> Stage {
        if self == Stage::Idle {
            Stage::Idle
        } else {
            Stage::Release
        }
    }

    /// The stage after `ticks.len()` ticks, the n-th of which reached its
    /// target exactly if `ticks[n]` holds.
    pub open spec fn after_ticks(self, ticks: Seq<bool>) -> Stage
        decreases ticks.len(),
    {
        if ticks.len() == 0 {
            self
        } else {
            self.after_ticks(ticks.drop_last()).after_tick(ticks.last())
        }
    }

    /// A fresh envelope starts in the attack.
    pub fn start() -> (s: Stage)
        ensures
            s == Stage::Attack,
    {
        Stage::Attack
    }

    /// The level this stage moves towards; `None` for the two stages that
    /// hold their level.
    pub fn target(&self) -> (t: Option<Target>)
        ensures
            t == self.target_spec(),
    {
        match self {
            Stage::Attack => Some(Target::Peak),
            Stage::Decay => Some(Target::SustainLevel),
            Stage::Release => Some(Target::Silence),
            Stage::Sustain => None,
            Stage::Idle => None,
        }
    }

    /// Advances by one tick. `reached` tells whether the level has arrived
    /// at the target of the current stage; it is ignored by the stages that
    /// have none.
    pub fn tick(&self, reached: bool) -> (next: Stage)
        ensures
            next == self.after_tick(reached),
    {
        if !reached {
            *self
        } else {
            match self {
                Stage::Attack => Stage::Decay,
                Stage::Decay => Stage::Sustain,
                Stage::Release => Stage::Idle,
                Stage::Sustain => Stage::Sustain,
                Stage::Idle => Stage::Idle,
            }
        }
    }

    /// Releasing the key sends a running envelope to the release, whatever
    /// stage it was in. An envelope that has run out stays idle: nothing
    /// leads out of the idle stage.
    pub fn note_off(&self) -> (next: Stage)
        ensures
            next == self.after_note_off(),
    {
        match self {
            Stage::Idle => Stage::Idle,
            _ => Stage::Release,
        }
    }

    /// Whether the envelope has run out, so that its voice can be dropped.
    pub fn is_finished(&self) -> (done: bool)
        ensures
            done == (*self == Stage::Idle),
    {
        match self {
            Stage::Idle => true,
            _ => false,
        }
    }

    /// Nothing leads out of the idle stage: no tick and no release of the
    /// key.
    pub proof fn idle_is_terminal(ticks: Seq<bool>)
        ensures
            Stage::Idle.after_ticks(ticks) == Stage::Idle,
            Stage::Idle.after_note_off() == Stage::Idle,
        decreases ticks.len(),
    {
        if ticks.len() > 0 {
            Stage::idle_is_terminal(ticks.drop_last());
        }
    }

    /// Ticks never move an envelope back to an earlier stage, and one tick
    /// moves it on by at most one stage.
    pub proof fn ticks_move_forward(s: Stage, reached: bool)
        ensures
            s.rank() <= s.after_tick(reached).rank() <= s.rank() + 1,
            s.after_tick(reached) != s ==> reached && s.target_spec().is_some(),
    {
    }

    /// A released envelope is idle as soon as one tick reaches silence, and
    /// stays in the release until then.
    pub proof fn release_runs_out(ticks: Seq<bool>)
        ensures
            Stage::Release.after_ticks(ticks) == if ticks.contains(true) {
                Stage::Idle
            } else {
                Stage::Release
            },
        decreases ticks.len(),
    {
        if ticks.len() > 0 {
            let front = ticks.drop_last();
            Stage::release_runs_out(front);
            if ticks.last() {
                assert(ticks[ticks.len() - 1]);
            } else if front.contains(true) {
                let k = choose|k: int| 0 <= k < front.len() && front[k];
                assert(ticks[k]);
            } else {
                assert forall|k: int| 0 <= k < ticks.len() implies !ticks[k] by {
                    if k < front.len() {
                        assert(front[k] == ticks[k]);
                    }
                }
            }
        }
    }
}

} // verus!
