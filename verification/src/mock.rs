//! The mock source, and the scripted run that exercises it.
//!
//! Dev mode is a source, not a UI toggle. Synthetic events flow through the
//! real state machine, the real IPC and the real renderer, because a dev
//! panel that wrote straight to the view would let the state machine be wrong
//! while every state still looked correct.

use vstd::prelude::*;

use std::sync::mpsc::{Receiver, Sender};

use crate::event::{
    EventKind, EventKindView, FailureKind, FailureKindView, SessionEvent, SessionEventView,
};
use crate::machine::state_for_event;
use crate::source::{EventSink, EventSource};
use crate::state::{state_named, ClawdState};
use crate::text::same_text;
use crate::time::Duration;

verus! {

/// The session id the harness pretends to be.
pub const PRIMARY_SESSION: &'static str = "mock-session-a";

/// A second session, for proving stickiness against a chatty neighbour.
pub const SECOND_SESSION: &'static str = "mock-session-b";

/// A hand-driven event source.
pub struct MockSource {
    sink: Option<EventSink>,
}

impl MockSource {
    /// Whether the source has been started, and so has somewhere to send.
    pub closed spec fn started(&self) -> bool {
        self.sink is Some
    }

    pub fn new() -> (r: MockSource)
        ensures
            !r.started(),
    {
        MockSource { sink: None }
    }

    /// Push one event through, as the number keys do. Before `start` there
    /// is nowhere to push it, and it is dropped.
    pub fn inject(&self, event: SessionEvent) {
        match &self.sink {
            Some(sink) => sink.emit(event),
            None => {},
        }
    }

    /// The sink a scripted run plays into, once the source has started.
    pub fn sink(&self) -> (r: Option<EventSink>)
        ensures
            r is Some <==> self.started(),
    {
        match &self.sink {
            Some(sink) => Some(sink.clone()),
            None => None,
        }
    }
}

impl EventSource for MockSource {
    fn start(&mut self, sink: EventSink)
        ensures
            final(self).started(),
    {
        self.sink = Some(sink);
    }
}

/// Convenience channel pairing for the shell.
pub fn channel() -> (Sender<SessionEvent>, Receiver<SessionEvent>) {
    crate::source::channel()
}

/// The event kind that puts Clawd into a given state, for keys 1-0.
pub open spec fn harness_kind(state: ClawdState) -> EventKindView {
    match state {
        ClawdState::Idle => EventKindView::SessionStarted,
        ClawdState::Thinking => EventKindView::PromptSubmitted,
        ClawdState::Working | ClawdState::LongTask => EventKindView::ToolStarted {
            name: "Edit"@,
            target: Some("src/components/App.tsx"@),
        },
        ClawdState::NeedsInput => EventKindView::AttentionNeeded,
        ClawdState::NeedsPermission => EventKindView::PermissionRequested {
            action: Some("edit"@),
        },
        ClawdState::Success => EventKindView::TurnFinished { duration: Some(42_000) },
        ClawdState::Failed => EventKindView::TurnFailed { kind: Some(FailureKindView::RateLimit) },
        ClawdState::Paused => EventKindView::SessionEnded,
        ClawdState::Compacting => EventKindView::CompactStarted,
    }
}

/// The harness cannot set a state the machine would not produce: each key
/// asks for the event that earns its state, and `LongTask` is asked for by
/// the tool call that starts `Working`, so its pose still waits on the timer.
pub proof fn law_harness_events_earn_their_states(state: ClawdState)
    ensures
        state_for_event(harness_kind(state)) == (if state == ClawdState::LongTask {
            ClawdState::Working
        } else {
            state
        }),
{
}

/// What a dev-harness action asks for.
#[derive(Debug, Clone, Copy, PartialEq, Eq, Structural)]
pub enum DevAction {
    /// Play the scripted run, superseding any run in flight.
    PlayScript,
    /// A tool call from the second session, to prove stickiness.
    InjectSecondSession,
    /// Shrink the timers to `Timings::fast`.
    ShrinkTimers,
    /// Send the event that earns this state, from the primary session.
    Enter(ClawdState),
    /// Not an action the harness knows.
    Unknown,
}

pub const SCRIPT_ACTION: &'static str = "script";

pub const SECOND_ACTION: &'static str = "second-session";

pub const FAST_TIMERS_ACTION: &'static str = "fast-timers";

pub open spec fn dev_action_for(name: Seq<char>) -> DevAction {
    if name == SCRIPT_ACTION@ {
        DevAction::PlayScript
    } else if name == SECOND_ACTION@ {
        DevAction::InjectSecondSession
    } else if name == FAST_TIMERS_ACTION@ {
        DevAction::ShrinkTimers
    } else {
        match state_named(name) {
            Some(s) => DevAction::Enter(s),
            None => DevAction::Unknown,
        }
    }
}

/// What a number key or a dev tray item asks for. A state name asks for the
/// event that earns the state, never for the state itself.
pub fn dev_action(name: &str) -> (r: DevAction)
    ensures
        r == dev_action_for(name@),
{
    if same_text(name, SCRIPT_ACTION) {
        DevAction::PlayScript
    } else if same_text(name, SECOND_ACTION) {
        DevAction::InjectSecondSession
    } else if same_text(name, FAST_TIMERS_ACTION) {
        DevAction::ShrinkTimers
    } else {
        match ClawdState::parse(name) {
            Some(s) => DevAction::Enter(s),
            None => DevAction::Unknown,
        }
    }
}

/// The event that puts Clawd directly into a given state.
///
/// This still goes through the machine: asking for `LongTask` sends the tool
/// call that earns it, and the pose only arrives once the timer says so.
pub fn event_for_state(state: ClawdState, session_id: &str) -> (r: SessionEvent)
    ensures
        r@ == (SessionEventView { session_id: session_id@, kind: harness_kind(state) }),
{
    let kind = match state {
        ClawdState::Idle => EventKind::SessionStarted,
        ClawdState::Thinking => EventKind::PromptSubmitted,
        ClawdState::Working | ClawdState::LongTask => EventKind::ToolStarted {
            name: "Edit".to_owned(),
            target: Some("src/components/App.tsx".to_owned()),
        },
        ClawdState::NeedsInput => EventKind::AttentionNeeded,
        ClawdState::NeedsPermission => EventKind::PermissionRequested {
            action: Some("edit".to_owned()),
        },
        ClawdState::Success => EventKind::TurnFinished { duration: Some(Duration::from_secs(42)) },
        ClawdState::Failed => EventKind::TurnFailed { kind: Some(FailureKind::RateLimit) },
        ClawdState::Paused => EventKind::SessionEnded,
        ClawdState::Compacting => EventKind::CompactStarted,
    };
    SessionEvent::new(session_id, kind)
}

/// One step of the scripted run: a delay in milliseconds, then an event kind
/// from the primary session.
pub open spec fn tool(name: Seq<char>, target: Seq<char>) -> EventKindView {
    EventKindView::ToolStarted { name: name, target: Some(target) }
}

/// The scripted run: prompt, several tool calls, a permission request, more
/// work (one call long enough to earn the long-task pose), success.
pub open spec fn script_steps() -> Seq<(nat, EventKindView)> {
    seq![
        (0, EventKindView::SessionStarted),
        (900, EventKindView::PromptSubmitted),
        (1400, tool("Read"@, "src/components/Toolbar.tsx"@)),
        (1100, EventKindView::ToolFinished),
        (600, tool("Read"@, "src/hooks/useHotkey.ts"@)),
        (800, EventKindView::ToolFinished),
        (700, EventKindView::PermissionRequested { action: Some("edit"@) }),
        (3200, tool("Edit"@, "src/components/Toolbar.tsx"@)),
        (1500, EventKindView::ToolFinished),
        (600, tool("Bash"@, "npm test"@)),
        (13000, EventKindView::ToolFinished),
        (900, EventKindView::TurnFinished { duration: Some(42_000) }),
    ]
}

fn step(
    delay_ms: u64,
    kind: EventKind,
    out: &mut Vec<(Duration, SessionEvent)>,
)
    ensures
        final(out)@.len() == old(out)@.len() + 1,
        forall|i: int| 0 <= i < old(out)@.len() ==> #[trigger] final(out)@[i] == old(out)@[i],
        final(out)@.last().0@ == delay_ms,
        final(out)@.last().1@ == (SessionEventView { session_id: PRIMARY_SESSION@, kind: kind@ }),
{
    out.push((Duration::from_millis(delay_ms), SessionEvent::new(PRIMARY_SESSION, kind)));
}

fn tool_call(name: &str, target: &str) -> (r: EventKind)
    ensures
        r@ == tool(name@, target@),
{
    EventKind::ToolStarted { name: name.to_owned(), target: Some(target.to_owned()) }
}

/// A realistic timed sequence, returned as data rather than played, so tests
/// can run it through the machine with an injected clock and no sleeping.
pub fn script() -> (r: Vec<(Duration, SessionEvent)>)
    ensures
        r@.len() == script_steps().len(),
        forall|i: int|
            0 <= i < r@.len() ==> #[trigger] r@[i].0@ == script_steps()[i].0 && r@[i].1@ == (
            SessionEventView { session_id: PRIMARY_SESSION@, kind: script_steps()[i].1 }),
{
    let mut out: Vec<(Duration, SessionEvent)> = Vec::new();
    step(0, EventKind::SessionStarted, &mut out);
    step(900, EventKind::PromptSubmitted, &mut out);
    step(1400, tool_call("Read", "src/components/Toolbar.tsx"), &mut out);
    step(1100, EventKind::ToolFinished, &mut out);
    step(600, tool_call("Read", "src/hooks/useHotkey.ts"), &mut out);
    step(800, EventKind::ToolFinished, &mut out);
    step(700, EventKind::PermissionRequested { action: Some("edit".to_owned()) }, &mut out);
    step(3200, tool_call("Edit", "src/components/Toolbar.tsx"), &mut out);
    step(1500, EventKind::ToolFinished, &mut out);
    step(600, tool_call("Bash", "npm test"), &mut out);
    // Long enough to earn the long-task pose and show the meter.
    step(13000, EventKind::ToolFinished, &mut out);
    step(900, EventKind::TurnFinished { duration: Some(Duration::from_secs(42)) }, &mut out);
    assert(out@.len() == 12);
    out
}

} // verus!
