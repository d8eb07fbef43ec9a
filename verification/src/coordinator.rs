//! The sleep-timer coordinator's state machine.
//!
//! The coordinator owns the single timer slot. It reacts to exactly two
//! stimuli — an inbound control message, or the pending timer expiring —
//! whichever comes first. The reaction is a pure transition from the current
//! state and the event to a new state and a side effect for the surrounding
//! loop to perform. Instants and durations are counted in milliseconds on a
//! monotonic clock supplied by the caller.

use vstd::prelude::*;

verus! {

/// A control message sent to the coordinator's inbox. A `StartTimer` carries
/// the countdown duration in milliseconds.
#[derive(Clone, Copy, PartialEq, Eq, Structural, Debug)]
pub enum SleepMessage {
    StartTimer(u64),
    Cancel,
}

/// Why a wait for the next message ended without yielding one: the pending
/// timer expired first, or the inbox can never deliver another message.
#[derive(Clone, Copy, PartialEq, Eq, Structural, Debug)]
pub enum RecvTimeoutError {
    Timeout,
    Disconnected,
}

/// The single timer slot: either no countdown is pending, or one is, armed
/// with `duration` milliseconds at monotonic instant `start`.
#[derive(Clone, Copy, PartialEq, Eq, Structural, Debug)]
pub enum TimerState {
    Idle,
    Armed { duration: u64, start: u64 },
}

/// What the surrounding loop must do after a transition: nothing, run the
/// fade-and-pause sequence, or stop the loop for good.
#[derive(Clone, Copy, PartialEq, Eq, Structural, Debug)]
pub enum Effect {
    Nothing,
    RunFade,
    Shutdown,
}

/// The coordinator's transition relation.
///
/// A `StartTimer` arms the slot afresh at `now`, replacing (never queueing
/// behind) whatever was pending; a `Cancel` empties the slot; an expiry hands
/// the loop one fade effect and returns the slot to `Idle`, whatever becomes
/// of the fade; a disconnected inbox shuts the loop down.
pub open spec fn next(
    state: TimerState,
    event: Result<SleepMessage, RecvTimeoutError>,
    now: u64,
) -> (TimerState, Effect) {
    match event {
        Ok(SleepMessage::StartTimer(d)) => (
            TimerState::Armed { duration: d, start: now },
            Effect::Nothing,
        ),
        Ok(SleepMessage::Cancel) => (TimerState::Idle, Effect::Nothing),
        Err(RecvTimeoutError::Timeout) => match state {
            TimerState::Armed { .. } => (TimerState::Idle, Effect::RunFade),
            TimerState::Idle => (TimerState::Idle, Effect::Nothing),
        },
        Err(RecvTimeoutError::Disconnected) => (state, Effect::Shutdown),
    }
}

/// Performs one transition of the coordinator: from the current state and the
/// outcome of the last wait, compute the next state and the effect to run.
pub fn step(
    state: TimerState,
    event: Result<SleepMessage, RecvTimeoutError>,
    now: u64,
) -> (r: (TimerState, Effect))
    ensures
        r == next(state, event, now),
{
    match event {
        Ok(SleepMessage::StartTimer(d)) => (
            TimerState::Armed { duration: d, start: now },
            Effect::Nothing,
        ),
        Ok(SleepMessage::Cancel) => (TimerState::Idle, Effect::Nothing),
        Err(RecvTimeoutError::Timeout) => match state {
            TimerState::Armed { .. } => (TimerState::Idle, Effect::RunFade),
            TimerState::Idle => (TimerState::Idle, Effect::Nothing),
        },
        Err(RecvTimeoutError::Disconnected) => (state, Effect::Shutdown),
    }
}

/// Milliseconds still to wait before a timer armed with `duration` at `start`
/// expires, seen from instant `now`: zero once the deadline `start + duration`
/// has passed, the distance to the deadline otherwise.
pub open spec fn spec_remaining(duration: u64, start: u64, now: u64) -> u64
    recommends
        start <= now,
{
    if now - start > duration {
        0u64
    } else {
        (duration - (now - start)) as u64
    }
}

/// Recomputes the wait from the absolute deadline. Each time the coordinator
/// re-enters its wait it derives the timeout afresh from `(duration, start,
/// now)`, so time spent on other processing is never silently lost.
pub fn remaining(duration: u64, start: u64, now: u64) -> (r: u64)
    requires
        start <= now,
    ensures
        r == spec_remaining(duration, start, now),
{
    let elapsed: u64 = now - start;
    if elapsed > duration {
        0
    } else {
        duration - elapsed
    }
}

/// A later arm wholly replaces an earlier one. Arming with `d1` and then,
/// still at the same instant, with `d2` leaves the slot armed with `d2`
/// alone — the earlier duration and deadline are discarded — and the timer
/// then expires exactly `d2` after the re-arm, strictly before the discarded
/// deadline `t + d1` and with no second firing pending.
pub proof fn lemma_rearm_replaces(state: TimerState, d1: u64, d2: u64, t: u64, now: u64)
    requires
        0 < d2 < d1,
        t <= now,
    ensures
        ({
            let armed_once = next(state, Ok(SleepMessage::StartTimer(d1)), t).0;
            let armed_again = next(armed_once, Ok(SleepMessage::StartTimer(d2)), t).0;
            armed_again == (TimerState::Armed { duration: d2, start: t })
        }),
        t + d2 < t + d1,
        spec_remaining(d2, t, now) == 0 <==> t + d2 <= now,
{
}

/// A `Cancel` that arrives while a timer is pending disarms it without a
/// fade, and no event delivered to an idle coordinator can start a fade: once
/// cancelled, no fade-and-pause sequence runs until a new arm expires.
pub proof fn lemma_cancel_prevents_fade(d: u64, start: u64, now: u64)
    ensures
        (next(TimerState::Armed { duration: d, start }, Ok(SleepMessage::Cancel), now) == (
            TimerState::Idle,
            Effect::Nothing,
        )),
        forall|event: Result<SleepMessage, RecvTimeoutError>, t: u64|
            next(TimerState::Idle, event, t).1 != Effect::RunFade,
{
}

/// Issuing `Cancel` while `Idle` is a no-op: the state is unchanged and no
/// effect is asked of the loop.
pub proof fn lemma_cancel_idle_noop(now: u64)
    ensures
        next(TimerState::Idle, Ok(SleepMessage::Cancel), now) == (
            TimerState::Idle,
            Effect::Nothing,
        ),
{
}

/// The wait is sliced against the absolute deadline `start + duration`: from
/// any instant at or before the deadline, waiting out the remaining time
/// lands exactly on the deadline, however often the wait was interrupted and
/// recomputed meanwhile; past the deadline nothing remains and the timer
/// expires at once.
pub proof fn lemma_remaining_absolute(duration: u64, start: u64, now: u64)
    requires
        start <= now,
    ensures
        now <= start + duration ==> now + spec_remaining(duration, start, now) == start
            + duration,
        now > start + duration ==> spec_remaining(duration, start, now) == 0,
{
}

/// Expiry hands the loop a single fade effect and returns the slot to `Idle`
/// unconditionally: however the fade-and-pause sequence ends, the coordinator
/// neither re-arms nor retries, and stands ready for a new `StartTimer`.
pub proof fn lemma_expiry_returns_idle(d: u64, start: u64, now: u64)
    ensures
        (next(TimerState::Armed { duration: d, start }, Err(RecvTimeoutError::Timeout), now) == (
            TimerState::Idle,
            Effect::RunFade,
        )),
{
}

/// Converts a requested count of seconds into the coordinator's millisecond
/// durations, refusing a count so large that it cannot be represented.
pub fn millis_from_secs(secs: u64) -> (r: Option<u64>)
    ensures
        secs * 1000 <= u64::MAX ==> r == Some((secs * 1000) as u64),
        secs * 1000 > u64::MAX ==> r is None,
{
    if secs <= u64::MAX / 1000 {
        Some(secs * 1000)
    } else {
        None
    }
}

} // verus!
