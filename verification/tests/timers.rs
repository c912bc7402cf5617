//! The three timers, driven by an injected clock rather than by sleeping.

use clawd_core::event::EventKind;
use clawd_core::machine::Machine;
use clawd_core::{ClawdState, Duration, Instant, SessionEvent, Timings};

const S: &str = "session-1";

fn tool() -> EventKind {
    EventKind::ToolStarted {
        name: "Bash".to_string(),
        target: Some("npm test".to_string()),
    }
}

fn start() -> Instant {
    Instant::from_millis(7_000_000)
}

fn secs(n: u64) -> Duration {
    Duration::from_secs(n)
}

#[test]
fn working_earns_long_task_after_ten_seconds() {
    let now = start();
    let mut m = Machine::new(Timings::default(), now);
    m.apply(&SessionEvent::new(S, tool()), now);

    assert!(m.tick(now.plus(secs(9))).is_none());
    assert_eq!(m.state(), ClawdState::Working);

    let snapshot = m.tick(now.plus(secs(10))).expect("promoted");
    assert_eq!(snapshot.state, ClawdState::LongTask);
}

/// The long-task pose adds the elapsed meter, not new words.
#[test]
fn long_task_keeps_the_working_label() {
    let now = start();
    let mut m = Machine::new(Timings::default(), now);
    m.apply(&SessionEvent::new(S, tool()), now);

    let snapshot = m.tick(now.plus(secs(11))).expect("promoted");
    assert_eq!(snapshot.label, "Running npm test");
}

/// A second tool call restarts the clock.
#[test]
fn a_new_tool_call_restarts_the_long_task_clock() {
    let now = start();
    let mut m = Machine::new(Timings::default(), now);
    m.apply(&SessionEvent::new(S, tool()), now);

    let t = now.plus(secs(8));
    m.apply(
        &SessionEvent::new(
            S,
            EventKind::ToolStarted {
                name: "Read".into(),
                target: Some("src/main.rs".into()),
            },
        ),
        t,
    );

    assert!(m.tick(now.plus(secs(12))).is_none());
    assert_eq!(m.state(), ClawdState::Working);
    assert_eq!(m.tick(t.plus(secs(10))).unwrap().state, ClawdState::LongTask);
}

#[test]
fn success_settles_back_to_idle() {
    let now = start();
    let mut m = Machine::new(Timings::default(), now);
    m.apply(
        &SessionEvent::new(S, EventKind::TurnFinished { duration: Some(secs(42)) }),
        now,
    );
    assert_eq!(m.state(), ClawdState::Success);

    assert!(m.tick(now.plus(secs(4))).is_none());
    let snapshot = m.tick(now.plus(secs(5))).expect("settled");
    assert_eq!(snapshot.state, ClawdState::Idle);
    assert_eq!(snapshot.label, "Ready");
}

/// If the agent is killed outright no end event fires; the watchdog drops
/// the pet to Paused.
#[test]
fn a_silent_busy_session_drops_to_paused() {
    let now = start();
    let mut m = Machine::new(Timings::default(), now);
    m.apply(&SessionEvent::new(S, tool()), now);

    let snapshot = m.tick(now.plus(secs(120))).expect("watchdog fired");
    assert_eq!(snapshot.state, ClawdState::Paused);
    assert_eq!(snapshot.label, "Session stalled");
}

#[test]
fn the_watchdog_covers_every_busy_state() {
    for kind in [
        EventKind::PromptSubmitted,
        EventKind::CompactStarted,
        EventKind::ToolStarted { name: "Bash".into(), target: None },
    ] {
        let now = start();
        let mut m = Machine::new(Timings::default(), now);
        m.apply(&SessionEvent::new(S, kind), now);
        assert!(m.state().is_busy());
        assert_eq!(
            m.tick(now.plus(secs(121))).map(|s| s.state),
            Some(ClawdState::Paused)
        );
    }
}

/// A blocking state is quiet by nature.
#[test]
fn the_watchdog_leaves_blocking_states_alone() {
    let now = start();
    let mut m = Machine::new(Timings::default(), now);
    m.apply(&SessionEvent::new(S, EventKind::PermissionRequested { action: None }), now);

    assert!(m.tick(now.plus(secs(600))).is_none());
    assert_eq!(m.state(), ClawdState::NeedsPermission);
}

#[test]
fn activity_keeps_the_watchdog_at_bay() {
    let now = start();
    let mut m = Machine::new(Timings::default(), now);
    m.apply(&SessionEvent::new(S, tool()), now);

    // A tool finishing every 60s, for ten minutes.
    for i in 1..=10 {
        let t = now.plus(secs(60 * i));
        m.apply(&SessionEvent::new(S, EventKind::ToolFinished), t);
        assert!(m.tick(t.plus(secs(1))).is_none());
    }
    assert_eq!(m.state(), ClawdState::Thinking);
}

#[test]
fn dev_timer_overrides_apply_to_the_state_already_running() {
    let now = start();
    let mut m = Machine::new(Timings::default(), now);
    m.apply(&SessionEvent::new(S, tool()), now);

    m.set_timings(Timings::fast(), now.plus(secs(1)));
    let snapshot = m.tick(now.plus(secs(3))).expect("promoted early");
    assert_eq!(snapshot.state, ClawdState::LongTask);
}

#[test]
fn next_wakeup_reports_the_nearer_of_the_two_clocks() {
    let now = start();
    let mut m = Machine::new(Timings::default(), now);

    assert_eq!(m.next_wakeup(), None, "idle has nothing pending");

    m.apply(&SessionEvent::new(S, tool()), now);
    assert_eq!(m.next_wakeup(), Some(now.plus(secs(10))));

    m.tick(now.plus(secs(10)));
    // Long task has no deadline of its own; the watchdog is what remains.
    assert_eq!(m.next_wakeup(), Some(now.plus(secs(120))));
}

/// With no event, advance is exactly a tick.
#[test]
fn advance_with_no_event_still_promotes() {
    let now = start();
    let mut m = Machine::new(Timings::default(), now);
    m.apply(&SessionEvent::new(S, tool()), now);

    assert!(m.advance(None, now.plus(secs(9))).is_none());
    assert_eq!(
        m.advance(None, now.plus(secs(10))).map(|s| s.state),
        Some(ClawdState::LongTask)
    );
}

/// With an event, advance applies it and then runs the timers.
#[test]
fn advance_with_an_event_applies_it() {
    let now = start();
    let mut m = Machine::new(Timings::default(), now);
    let event = SessionEvent::new(S, tool());
    let snapshot = m.advance(Some(&event), now).expect("working");
    assert_eq!(snapshot.state, ClawdState::Working);
    assert_eq!(snapshot.label, "Running npm test");
}

/// The default and the shrunk thresholds, exactly.
#[test]
fn the_thresholds_read_as_specified() {
    let d = Timings::default();
    assert_eq!((d.long_task, d.success_hold, d.stale), (secs(10), secs(5), secs(120)));
    let f = Timings::fast();
    assert_eq!((f.long_task, f.success_hold, f.stale), (secs(2), secs(2), secs(6)));
    let m = Machine::new(Timings::fast(), start());
    assert_eq!(m.timings(), Timings::fast());
}

/// A second tick at the same instant has nothing left to do.
#[test]
fn one_tick_does_everything_due_at_an_instant() {
    let now = start();
    let mut m = Machine::new(Timings::default(), now);
    m.apply(&SessionEvent::new(S, tool()), now);
    let at = now.plus(secs(200));
    assert_eq!(m.tick(at).map(|s| s.state), Some(ClawdState::Paused));
    assert!(m.tick(at).is_none());
}

/// New thresholds rearm the running state from the moment they are set.
#[test]
fn new_timings_rearm_a_running_tool_call_from_now() {
    let now = start();
    let mut m = Machine::new(Timings::default(), now);
    m.apply(&SessionEvent::new(S, tool()), now);

    m.set_timings(Timings::fast(), now.plus(secs(1)));
    assert_eq!(m.state(), ClawdState::Working);
    assert_eq!(m.next_wakeup(), Some(now.plus(secs(3))));
    assert_eq!(m.snapshot().label, "Running npm test");
}
