use sleep_timer::coordinator::{
    millis_from_secs, remaining, step, Effect, RecvTimeoutError, SleepMessage, TimerState,
};

#[test]
fn second_arm_replaces_first() {
    // Arm 10 s, then immediately arm 5 s: the slot holds only the later arm.
    let (s1, e1) = step(TimerState::Idle, Ok(SleepMessage::StartTimer(10_000)), 0);
    assert_eq!(s1, TimerState::Armed { duration: 10_000, start: 0 });
    assert_eq!(e1, Effect::Nothing);
    let (s2, e2) = step(s1, Ok(SleepMessage::StartTimer(5_000)), 0);
    assert_eq!(s2, TimerState::Armed { duration: 5_000, start: 0 });
    assert_eq!(e2, Effect::Nothing);
    // The timer expires 5 s after the arm, not 10 s: still pending at 4.999 s,
    // due exactly at 5 s.
    assert_eq!(remaining(5_000, 0, 4_999), 1);
    assert_eq!(remaining(5_000, 0, 5_000), 0);
}

#[test]
fn cancel_before_expiry_prevents_fade() {
    // Arm 5 s, cancel at 2 s: no fade effect is ever produced.
    let (s1, _) = step(TimerState::Idle, Ok(SleepMessage::StartTimer(5_000)), 0);
    let (s2, e2) = step(s1, Ok(SleepMessage::Cancel), 2_000);
    assert_eq!(s2, TimerState::Idle);
    assert_eq!(e2, Effect::Nothing);
    // Once idle, even a spurious wait timeout produces no fade.
    let (s3, e3) = step(s2, Err(RecvTimeoutError::Timeout), 9_000);
    assert_eq!(s3, TimerState::Idle);
    assert_eq!(e3, Effect::Nothing);
}

#[test]
fn cancel_while_idle_is_noop() {
    let (s, e) = step(TimerState::Idle, Ok(SleepMessage::Cancel), 5);
    assert_eq!(s, TimerState::Idle);
    assert_eq!(e, Effect::Nothing);
}

#[test]
fn remaining_is_sliced_from_absolute_deadline() {
    // Armed for 10 s at t = 0; the wait is re-entered at t = 7 s after
    // unrelated processing: 3 s remain, so expiry falls at 10 s after the
    // arm, not 17 s and not 7 s.
    assert_eq!(remaining(10_000, 0, 7_000), 3_000);
    assert_eq!(remaining(10_000, 0, 0), 10_000);
    assert_eq!(remaining(10_000, 0, 10_000), 0);
}

#[test]
fn remaining_past_deadline_is_zero() {
    assert_eq!(remaining(1_000, 500, 2_000), 0);
    assert_eq!(remaining(0, 0, 0), 0);
}

#[test]
fn rearm_moves_the_deadline() {
    // Arm 3 s at t = 0, re-arm 3 s at t = 1 s: the fade begins 4 s after the
    // first arm, which is 3 s after the second.
    let (s1, _) = step(TimerState::Idle, Ok(SleepMessage::StartTimer(3_000)), 0);
    let (s2, _) = step(s1, Ok(SleepMessage::StartTimer(3_000)), 1_000);
    assert_eq!(s2, TimerState::Armed { duration: 3_000, start: 1_000 });
    assert_eq!(remaining(3_000, 1_000, 3_000), 1_000);
    assert_eq!(remaining(3_000, 1_000, 3_999), 1);
    assert_eq!(remaining(3_000, 1_000, 4_000), 0);
    let (s3, e3) = step(s2, Err(RecvTimeoutError::Timeout), 4_000);
    assert_eq!(s3, TimerState::Idle);
    assert_eq!(e3, Effect::RunFade);
}

#[test]
fn expiry_fires_once_and_returns_to_idle() {
    let (s1, e1) = step(
        TimerState::Armed { duration: 2_000, start: 0 },
        Err(RecvTimeoutError::Timeout),
        2_000,
    );
    assert_eq!(s1, TimerState::Idle);
    assert_eq!(e1, Effect::RunFade);
    // Whatever became of the fade, the coordinator accepts a fresh arm.
    let (s2, e2) = step(s1, Ok(SleepMessage::StartTimer(1_000)), 3_000);
    assert_eq!(s2, TimerState::Armed { duration: 1_000, start: 3_000 });
    assert_eq!(e2, Effect::Nothing);
}

#[test]
fn disconnected_inbox_shuts_down() {
    let (_, e1) = step(TimerState::Idle, Err(RecvTimeoutError::Disconnected), 0);
    assert_eq!(e1, Effect::Shutdown);
    let (_, e2) = step(
        TimerState::Armed { duration: 5_000, start: 0 },
        Err(RecvTimeoutError::Disconnected),
        100,
    );
    assert_eq!(e2, Effect::Shutdown);
}

#[test]
fn zero_duration_arm_expires_at_once() {
    let (s1, _) = step(TimerState::Idle, Ok(SleepMessage::StartTimer(0)), 42);
    assert_eq!(s1, TimerState::Armed { duration: 0, start: 42 });
    assert_eq!(remaining(0, 42, 42), 0);
}

#[test]
fn millis_from_secs_converts_and_refuses_overflow() {
    assert_eq!(millis_from_secs(0), Some(0));
    assert_eq!(millis_from_secs(1), Some(1_000));
    assert_eq!(millis_from_secs(3_600), Some(3_600_000));
    assert_eq!(millis_from_secs(u64::MAX / 1_000), Some(u64::MAX / 1_000 * 1_000));
    assert_eq!(millis_from_secs(u64::MAX / 1_000 + 1), None);
    assert_eq!(millis_from_secs(u64::MAX), None);
}
