//! The fade-and-pause sequence, as a plan of player commands.
//!
//! On expiry the coordinator ramps the playback volume down to a fixed floor
//! as an audible cue, pauses the player, and then restores the volume it
//! started from, so pausing leaves the intended level intact for the next
//! play. The plan is computed here as a sequence of commands; the surrounding
//! process issues each command to the player in order, sleeping a fixed
//! interval after each ramp step, and abandons the remainder on the first
//! command that fails.

use vstd::prelude::*;

verus! {

/// The volume level the ramp descends to: its last step sets this level.
pub const FADE_FLOOR: i8 = 40;

/// Milliseconds to sleep after each ramp step when performing the plan.
pub const FADE_STEP_MS: u64 = 100;

/// One command of the fade plan, for the surrounding process to issue to the
/// player.
#[derive(Clone, Copy, PartialEq, Eq, Structural, Debug)]
pub enum FadeStep {
    SetVolume(i8),
    Pause,
}

/// How many volume-set commands the ramp issues when starting from volume
/// `v`: none at or below the floor, one per unit from `v - 1` down to
/// `FADE_FLOOR` otherwise.
pub open spec fn ramp_len(v: i8) -> nat {
    if v <= FADE_FLOOR {
        0
    } else {
        (v - FADE_FLOOR) as nat
    }
}

/// The whole fade-and-pause plan for a player currently at volume `v`: the
/// descending ramp, then a pause, then one volume-set restoring `v`.
pub open spec fn fade_seq(v: i8) -> Seq<FadeStep> {
    Seq::new(ramp_len(v), |i: int| FadeStep::SetVolume((v - 1 - i) as i8))
        + seq![FadeStep::Pause, FadeStep::SetVolume(v)]
}

/// Shape of the fade plan. At or below the floor the ramp is empty: the plan
/// performs zero volume-set commands before pausing and restores the volume
/// unchanged. Above the floor the plan issues exactly `v - FADE_FLOOR`
/// volume-set commands, one per unit, descending from `v - 1` to
/// `FADE_FLOOR`. Either way the plan ends with the pause followed by a
/// single volume-set restoring the starting volume `v`.
pub proof fn lemma_fade_shape(v: i8)
    ensures
        fade_seq(v).len() == ramp_len(v) + 2,
        v <= FADE_FLOOR ==> ramp_len(v) == 0,
        v > FADE_FLOOR ==> ramp_len(v) == v - FADE_FLOOR,
        forall|i: int|
            0 <= i < ramp_len(v) ==> fade_seq(v)[i] == FadeStep::SetVolume((v - 1 - i) as i8)
                && v - 1 - i >= FADE_FLOOR,
        fade_seq(v)[ramp_len(v) as int] == FadeStep::Pause,
        fade_seq(v)[ramp_len(v) as int + 1] == FadeStep::SetVolume(v),
{
}

/// Computes the fade-and-pause plan for a player currently at volume
/// `volume`.
pub fn fade_plan(volume: i8) -> (plan: Vec<FadeStep>)
    ensures
        plan@ == fade_seq(volume),
{
    let mut plan: Vec<FadeStep> = Vec::new();
    let mut level: i8 = volume;
    while level > FADE_FLOOR
        invariant
            level <= volume,
            volume <= FADE_FLOOR ==> level == volume,
            volume > FADE_FLOOR ==> FADE_FLOOR <= level,
            plan@.len() == volume - level,
            forall|i: int|
                0 <= i < plan@.len() ==> plan@[i] == FadeStep::SetVolume((volume - 1 - i) as i8),
        decreases level - FADE_FLOOR,
    {
        level = level - 1;
        plan.push(FadeStep::SetVolume(level));
    }
    plan.push(FadeStep::Pause);
    plan.push(FadeStep::SetVolume(volume));
    proof {
        assert(plan@ =~= fade_seq(volume));
    }
    plan
}

} // verus!
