//! Ownership and sticky blocking states.

use clawd_core::event::EventKind;
use clawd_core::machine::Machine;
use clawd_core::{ClawdState, Duration, Instant, SessionEvent, Timings};

const A: &str = "session-a";
const B: &str = "session-b";

fn tool(name: &str) -> EventKind {
    EventKind::ToolStarted {
        name: name.to_string(),
        target: Some("src/App.tsx".to_string()),
    }
}

fn start() -> Instant {
    Instant::from_millis(5_000_000)
}

#[test]
fn a_chatty_neighbour_cannot_steal_a_permission_prompt() {
    let now = start();
    let mut m = Machine::new(Timings::default(), now);

    m.apply(
        &SessionEvent::new(A, EventKind::PermissionRequested { action: Some("edit".into()) }),
        now,
    );
    assert_eq!(m.state(), ClawdState::NeedsPermission);

    // B talks over it, repeatedly. None of it lands.
    for i in 1..=5 {
        let t = now.plus(Duration::from_millis(200 * i));
        assert!(m.apply(&SessionEvent::new(B, tool("Read")), t).is_none());
        assert!(m.apply(&SessionEvent::new(B, EventKind::ToolFinished), t).is_none());
    }

    assert_eq!(m.state(), ClawdState::NeedsPermission);
    assert_eq!(m.owner(), Some(A));
}

#[test]
fn needs_input_and_failed_are_sticky_too() {
    for blocking in [
        EventKind::AttentionNeeded,
        EventKind::TurnFailed { kind: None },
    ] {
        let now = start();
        let mut m = Machine::new(Timings::default(), now);
        m.apply(&SessionEvent::new(A, blocking), now);
        let held = m.state();
        assert!(held.is_blocking());

        assert!(m
            .apply(&SessionEvent::new(B, tool("Bash")), now.plus(Duration::from_secs(1)))
            .is_none());
        assert_eq!(m.state(), held);
    }
}

/// The owner is never locked out of its own blocking state.
#[test]
fn the_owning_session_can_leave_its_own_blocking_state() {
    let now = start();
    let mut m = Machine::new(Timings::default(), now);

    m.apply(&SessionEvent::new(A, EventKind::PermissionRequested { action: None }), now);
    m.apply(&SessionEvent::new(A, tool("Edit")), now.plus(Duration::from_secs(3)));

    assert_eq!(m.state(), ClawdState::Working);
}

/// Non-blocking states are last-writer-wins.
#[test]
fn ownership_moves_freely_while_nothing_is_blocking() {
    let now = start();
    let mut m = Machine::new(Timings::default(), now);

    m.apply(&SessionEvent::new(A, EventKind::PromptSubmitted), now);
    assert_eq!(m.owner(), Some(A));

    m.apply(&SessionEvent::new(B, tool("Read")), now.plus(Duration::from_secs(1)));
    assert_eq!(m.owner(), Some(B));
    assert_eq!(m.state(), ClawdState::Working);
}

/// Once the blocking state is cleared by its owner, the neighbour can take
/// over again.
#[test]
fn stickiness_releases_once_the_blocking_state_clears() {
    let now = start();
    let mut m = Machine::new(Timings::default(), now);

    m.apply(&SessionEvent::new(A, EventKind::AttentionNeeded), now);
    assert!(m.apply(&SessionEvent::new(B, tool("Read")), now).is_none());

    m.apply(&SessionEvent::new(A, EventKind::PromptSubmitted), now.plus(Duration::from_secs(2)));
    m.apply(&SessionEvent::new(B, tool("Read")), now.plus(Duration::from_secs(3)));

    assert_eq!(m.owner(), Some(B));
    assert_eq!(m.state(), ClawdState::Working);
}

/// A fresh machine belongs to nobody, and the first session to speak owns it.
#[test]
fn a_fresh_machine_has_no_owner() {
    let now = start();
    let mut m = Machine::new(Timings::default(), now);
    assert_eq!(m.owner(), None);
    assert_eq!(m.state(), ClawdState::Idle);
    m.apply(&SessionEvent::new(B, EventKind::AttentionNeeded), now);
    assert_eq!(m.owner(), Some(B));
}
