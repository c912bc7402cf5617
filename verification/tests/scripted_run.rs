//! The scripted run, replayed through the real machine on an injected clock.

use clawd_core::machine::Machine;
use clawd_core::{mock, ClawdState, Duration, Instant, Snapshot, Timings};

/// Replay the script, ticking at the 250ms cadence the shell uses, and
/// collect every snapshot the machine chose to emit, with its time in
/// milliseconds since the start.
fn replay() -> Vec<(u64, Snapshot)> {
    let start = Instant::from_millis(0);
    let mut m = Machine::new(Timings::default(), start);
    let tick = 250;

    let mut schedule = Vec::new();
    let mut at = 0u64;
    for (delay, event) in mock::script() {
        at += delay.as_millis();
        schedule.push((at, event));
    }
    let end = at + 8_000;

    let mut out = Vec::new();
    let mut pending = schedule.into_iter().peekable();
    let mut elapsed = 0u64;

    while elapsed <= end {
        while pending.peek().is_some_and(|(t, _)| *t <= elapsed) {
            let (t, event) = pending.next().unwrap();
            if let Some(s) = m.apply(&event, start.plus(Duration::from_millis(t))) {
                out.push((t, s));
            }
        }
        if let Some(s) = m.tick(start.plus(Duration::from_millis(elapsed))) {
            out.push((elapsed, s));
        }
        elapsed += tick;
    }
    out
}

fn states(run: &[(u64, Snapshot)]) -> Vec<ClawdState> {
    run.iter().map(|(_, s)| s.state).collect()
}

#[test]
fn the_run_ends_ready_after_a_success() {
    let run = replay();
    let seen = states(&run);
    let tail = &seen[seen.len() - 2..];
    assert_eq!(tail, [ClawdState::Success, ClawdState::Idle]);
    assert_eq!(run.last().unwrap().1.label, "Ready");
}

#[test]
fn the_run_visits_the_states_a_real_turn_would() {
    let seen = states(&replay());
    for expected in [
        ClawdState::Thinking,
        ClawdState::Working,
        ClawdState::NeedsPermission,
        ClawdState::LongTask,
        ClawdState::Success,
    ] {
        assert!(seen.contains(&expected), "run never reached {expected:?}: {seen:?}");
    }
}

/// The permission prompt sits for 3.2s in the script. Nothing may displace it.
#[test]
fn the_permission_prompt_is_held_for_its_whole_duration() {
    let run = replay();
    let start = run
        .iter()
        .position(|(_, s)| s.state == ClawdState::NeedsPermission)
        .expect("permission requested");
    let next_change = run[start + 1].0;
    let held = next_change - run[start].0;
    assert!(held >= 3_000, "permission prompt was displaced after {held:?}ms");
}

/// No state should be emitted twice in a row.
#[test]
fn the_run_does_not_thrash() {
    let run = replay();
    for pair in run.windows(2) {
        assert_ne!(
            pair[0].1, pair[1].1,
            "the same snapshot was emitted twice in a row"
        );
    }
}

/// Working → LongTask is reached by the timer, not by an event.
#[test]
fn long_task_is_earned_by_the_clock() {
    let run = replay();
    let (at, snapshot) = run
        .iter()
        .find(|(_, s)| s.state == ClawdState::LongTask)
        .expect("long task reached");
    let started = run
        .iter()
        .rev()
        .find(|(t, s)| t < at && s.state == ClawdState::Working)
        .expect("working before it");
    assert!(*at - started.0 >= 10_000);
    assert_eq!(snapshot.label, "Running npm test");
}

/// The script, exactly: twelve steps from the primary session.
#[test]
fn the_script_is_the_primary_sessions_turn() {
    let script = mock::script();
    assert_eq!(script.len(), 12);
    assert!(script.iter().all(|(_, e)| e.session_id == mock::PRIMARY_SESSION));
    let total: u64 = script.iter().map(|(d, _)| d.as_millis()).sum();
    assert_eq!(total, 24_700);
}
