//! The state machine.
//!
//! It owns the timers, and it is testable without a browser: time is handed
//! in rather than read from a clock. `apply` and `tick` both take `now`, so
//! the timers are driven, and proved, by arithmetic.

use vstd::prelude::*;

use crate::config::Timings;
use crate::event::{EventKind, EventKindView, SessionEvent, SessionEventView};
use crate::label::{self, label_for, MAX_CHARS, READY, STALLED};
use crate::state::{spec_is_blocking, spec_is_busy, ClawdState};
use crate::text::same_text;
use crate::time::{saturating_diff, Instant};

verus! {

/// Everything the renderer is given: a state, plus label text.
#[derive(Debug, Clone, PartialEq, Eq)]
pub struct Snapshot {
    pub state: ClawdState,
    pub label: String,
}

/// A pending state-driven transition.
#[derive(Debug, Clone, Copy, PartialEq, Eq, Structural)]
pub enum Deadline {
    /// `Working` has run long enough to earn the long-task pose.
    LongTask,
    /// `Success` has been shown long enough; settle back to `Idle`.
    SuccessExpiry,
}

pub struct Machine {
    timings: Timings,
    state: ClawdState,
    label: String,
    /// The session whose events are currently being rendered.
    owner: Option<String>,
    deadline: Option<(Instant, Deadline)>,
    /// When the owning session last said anything. Drives the watchdog.
    last_event_at: Instant,
}

/// The machine as values: times in milliseconds, text as characters.
pub struct MachineView {
    pub timings: Timings,
    pub state: ClawdState,
    pub label: Seq<char>,
    pub owner: Option<Seq<char>>,
    pub deadline: Option<(nat, Deadline)>,
    pub last_event_at: nat,
}

impl View for Machine {
    type V = MachineView;

    closed spec fn view(&self) -> MachineView {
        MachineView {
            timings: self.timings,
            state: self.state,
            label: self.label@,
            owner: match self.owner {
                Some(o) => Some(o@),
                None => None,
            },
            deadline: match self.deadline {
                Some((at, d)) => Some((at@, d)),
                None => None,
            },
            last_event_at: self.last_event_at@,
        }
    }
}

/// The transition table, one row per event.
///
/// `ToolFinished → Thinking` is deliberate: after a tool returns, the agent is
/// deciding what to do next. Returning to `Idle` between every tool call
/// would make the pet flicker constantly during normal work.
pub open spec fn state_for_event(kind: EventKindView) -> ClawdState {
    match kind {
        EventKindView::SessionStarted => ClawdState::Idle,
        EventKindView::PromptSubmitted => ClawdState::Thinking,
        EventKindView::ToolStarted { .. } => ClawdState::Working,
        EventKindView::ToolFinished => ClawdState::Thinking,
        EventKindView::ToolFailed { .. } => ClawdState::Failed,
        EventKindView::PermissionRequested { .. } => ClawdState::NeedsPermission,
        EventKindView::AttentionNeeded => ClawdState::NeedsInput,
        EventKindView::TurnFinished { .. } => ClawdState::Success,
        EventKindView::TurnFailed { .. } => ClawdState::Failed,
        EventKindView::CompactStarted => ClawdState::Compacting,
        EventKindView::CompactFinished => ClawdState::Thinking,
        EventKindView::SessionEnded => ClawdState::Paused,
    }
}

/// How long a pending deadline waits, under the given thresholds.
pub open spec fn deadline_wait(t: Timings, d: Deadline) -> nat {
    match d {
        Deadline::LongTask => t.long_task@,
        Deadline::SuccessExpiry => t.success_hold@,
    }
}

/// The deadline a move to `next` at `now` would arm fits in the clock. Only
/// `Working` and `Success` arm one; every other move computes no instant.
pub open spec fn arming_fits(t: Timings, next: ClawdState, now: nat) -> bool {
    &&& next == ClawdState::Working ==> now + t.long_task@ <= u64::MAX
    &&& next == ClawdState::Success ==> now + t.success_hold@ <= u64::MAX
}

/// Whether an event accepted at `now` re-arms a deadline: it is accepted, and
/// something visible changes or `Working` is re-entered.
pub open spec fn apply_rearms(m: MachineView, e: SessionEventView) -> bool {
    may_own(m, e.session_id) && (changes(m, state_for_event(e.kind), label_for(e.kind)) || (
    state_for_event(e.kind) == ClawdState::Working && m.state == ClawdState::Working))
}

/// What `apply` asks of the clock: the deadline it arms, if it arms one, fits.
pub open spec fn apply_fits(m: MachineView, e: SessionEventView, now: nat) -> bool {
    apply_rearms(m, e) ==> arming_fits(m.timings, state_for_event(e.kind), now)
}

/// The deadline a state starts when it is entered.
pub open spec fn armed(t: Timings, next: ClawdState, now: nat) -> Option<(nat, Deadline)> {
    if next == ClawdState::Working {
        Some((now + t.long_task@, Deadline::LongTask))
    } else if next == ClawdState::Success {
        Some((now + t.success_hold@, Deadline::SuccessExpiry))
    } else {
        None
    }
}

/// Whether moving to `next` with `label` is visible to the renderer.
pub open spec fn changes(m: MachineView, next: ClawdState, label: Seq<char>) -> bool {
    next != m.state || label != m.label
}

/// Moving to `next` with `label`. The deadline is re-armed when something
/// visible changed, and also when `Working` is re-entered: a second tool call
/// in a row restarts the long-task clock.
pub open spec fn after_transition(
    m: MachineView,
    next: ClawdState,
    label: Seq<char>,
    now: nat,
) -> MachineView {
    MachineView {
        state: next,
        label: label,
        deadline: if changes(m, next, label) || (next == ClawdState::Working && m.state
            == ClawdState::Working) {
            armed(m.timings, next, now)
        } else {
            m.deadline
        },
        ..m
    }
}

/// Ownership, and the stickiness that makes it safe: a different session
/// takes over only while the current state is not waiting on the human.
pub open spec fn may_own(m: MachineView, session: Seq<char>) -> bool {
    match m.owner {
        Some(o) => o == session || !spec_is_blocking(m.state),
        None => true,
    }
}

/// The machine after `e` arrives at `now`. A refused event changes nothing.
pub open spec fn after_apply(m: MachineView, e: SessionEventView, now: nat) -> MachineView {
    if may_own(m, e.session_id) {
        after_transition(
            MachineView { owner: Some(e.session_id), last_event_at: now, ..m },
            state_for_event(e.kind),
            label_for(e.kind),
            now,
        )
    } else {
        m
    }
}

/// Whether `apply` hands back a snapshot: only when the event is accepted and
/// something visible changed.
pub open spec fn apply_reports(m: MachineView, e: SessionEventView) -> bool {
    may_own(m, e.session_id) && changes(m, state_for_event(e.kind), label_for(e.kind))
}

/// The watchdog: a busy state that has heard nothing for `stale`.
pub open spec fn watchdog_due(m: MachineView, now: nat) -> bool {
    spec_is_busy(m.state) && saturating_diff(now, m.last_event_at) >= m.timings.stale@
}

/// Where a tick at `now` moves the machine, if anywhere. The watchdog
/// outranks the state deadlines.
pub open spec fn tick_target(m: MachineView, now: nat) -> Option<(ClawdState, Seq<char>)> {
    if watchdog_due(m, now) {
        Some((ClawdState::Paused, STALLED@))
    } else {
        match m.deadline {
            None => None,
            Some((at, d)) => {
                if now < at {
                    None
                } else {
                    match d {
                        Deadline::LongTask => Some((ClawdState::LongTask, m.label)),
                        Deadline::SuccessExpiry => Some((ClawdState::Idle, READY@)),
                    }
                }
            },
        }
    }
}

pub open spec fn after_tick(m: MachineView, now: nat) -> MachineView {
    match tick_target(m, now) {
        Some((next, label)) => after_transition(m, next, label, now),
        None => m,
    }
}

pub open spec fn after_advance(m: MachineView, e: Option<SessionEventView>, now: nat) -> MachineView {
    match e {
        Some(e) => after_tick(after_apply(m, e, now), now),
        None => after_tick(m, now),
    }
}

pub open spec fn after_set_timings(m: MachineView, t: Timings, now: nat) -> MachineView {
    MachineView {
        timings: t,
        deadline: match m.deadline {
            Some((_, d)) => Some((now + deadline_wait(t, d), d)),
            None => None,
        },
        ..m
    }
}

/// The earliest instant at which a tick could matter.
pub open spec fn wakeup(m: MachineView) -> Option<nat> {
    let stale = if spec_is_busy(m.state) {
        Some(m.last_event_at + m.timings.stale@)
    } else {
        None
    };
    match (stale, m.deadline) {
        (Some(a), Some((b, _))) => Some(if a <= b { a } else { b }),
        (Some(a), None) => Some(a),
        (None, Some((b, _))) => Some(b),
        (None, None) => None,
    }
}

pub open spec fn initial(t: Timings, now: nat) -> MachineView {
    MachineView {
        timings: t,
        state: ClawdState::Idle,
        label: READY@,
        owner: None,
        deadline: None,
        last_event_at: now,
    }
}

impl MachineView {
    /// What every machine satisfies: the label fits the chip, and a deadline
    /// is pending exactly in the two states that have one — `Working` waits
    /// for the long-task pose, `Success` for settling back to `Idle`.
    pub open spec fn wf(self) -> bool {
        &&& self.label.len() <= MAX_CHARS
        &&& (self.state == ClawdState::Working <==> (self.deadline matches Some((_, d)) && d
            == Deadline::LongTask))
        &&& (self.state == ClawdState::Success <==> (self.deadline matches Some((_, d)) && d
            == Deadline::SuccessExpiry))
    }
}

/// A snapshot that shows the machine as it now is.
pub open spec fn shows(s: Snapshot, m: MachineView) -> bool {
    s.state == m.state && s.label@ == m.label
}

proof fn lemma_fixed_labels_fit()
    ensures
        READY@.len() <= MAX_CHARS,
        STALLED@.len() <= MAX_CHARS,
{
    reveal_strlit("Ready");
    reveal_strlit("Session stalled");
}

/// Every accepted event keeps the machine well formed.
pub proof fn lemma_apply_wf(m: MachineView, e: SessionEventView, now: nat)
    requires
        m.wf(),
    ensures
        after_apply(m, e, now).wf(),
{
    label::law_every_label_fits_the_chip(e.kind);
}

/// Every tick keeps the machine well formed.
pub proof fn lemma_tick_wf(m: MachineView, now: nat)
    requires
        m.wf(),
    ensures
        after_tick(m, now).wf(),
{
    lemma_fixed_labels_fit();
}

/// Whenever a tick moves the machine, the move is visible: there is no
/// silent timer transition. (Paused is not busy, LongTask is not Working,
/// Idle is not Success.)
pub proof fn lemma_tick_moves_are_visible(m: MachineView, now: nat)
    requires
        m.wf(),
    ensures
        tick_target(m, now) matches Some((next, label)) ==> changes(m, next, label),
        tick_target(m, now) is None ==> after_tick(m, now) == m,
{
}


/// A state waiting on the human is sticky: while one session holds the pet
/// in a blocking state, an event from any other session is refused and
/// changes nothing.
pub proof fn law_blocking_state_is_sticky(m: MachineView, e: SessionEventView, now: nat)
    requires
        m.wf(),
        spec_is_blocking(m.state),
        m.owner matches Some(o) && o != e.session_id,
    ensures
        after_apply(m, e, now) == m,
        !apply_reports(m, e),
{
}

/// An event the machine refuses changes nothing at all.
pub proof fn law_refused_event_changes_nothing(m: MachineView, e: SessionEventView, now: nat)
    requires
        !may_own(m, e.session_id),
    ensures
        after_apply(m, e, now) == m,
        !apply_reports(m, e),
{
}

/// The owning session is never locked out of its own blocking state, and
/// nobody is refused while nothing is blocking: either way the event lands
/// on the state the table gives it, with its label, and its session owns
/// the pet.
pub proof fn law_accepted_event_lands_on_its_state(m: MachineView, e: SessionEventView, now: nat)
    requires
        m.owner == Some(e.session_id) || m.owner is None || !spec_is_blocking(m.state),
    ensures
        after_apply(m, e, now).state == state_for_event(e.kind),
        after_apply(m, e, now).label == label_for(e.kind),
        after_apply(m, e, now).owner == Some(e.session_id),
        after_apply(m, e, now).last_event_at == now,
{
}

/// Identical repeats do not thrash: the same event again, at any later time,
/// is accepted, reports nothing, and leaves state and label as they were.
pub proof fn law_repeated_event_is_silent(m: MachineView, e: SessionEventView, t1: nat, t2: nat)
    requires
        m.wf(),
        may_own(m, e.session_id),
    ensures
        may_own(after_apply(m, e, t1), e.session_id),
        !apply_reports(after_apply(m, e, t1), e),
        after_apply(after_apply(m, e, t1), e, t2).state == after_apply(m, e, t1).state,
        after_apply(after_apply(m, e, t1), e, t2).label == after_apply(m, e, t1).label,
{
}

/// A tool call while `Working` restarts the long-task clock from its own
/// start, whether or not the label changed.
pub proof fn law_new_tool_call_restarts_the_clock(m: MachineView, e: SessionEventView, now: nat)
    requires
        m.wf(),
        m.state == ClawdState::Working,
        may_own(m, e.session_id),
        e.kind is ToolStarted,
    ensures
        after_apply(m, e, now).deadline == Some((now + m.timings.long_task@, Deadline::LongTask)),
{
}

/// No event produces `LongTask`: it is earned by the clock, from `Working`,
/// and it keeps the label of the tool that is still running.
pub proof fn law_long_task_is_earned_by_the_clock(m: MachineView, k: EventKindView, now: nat)
    requires
        m.wf(),
    ensures
        state_for_event(k) != ClawdState::LongTask,
        after_tick(m, now).state == ClawdState::LongTask && m.state != ClawdState::LongTask
            ==> m.state == ClawdState::Working && after_tick(m, now).label == m.label,
{
}

/// The watchdog: a busy state that has heard nothing for `stale` drops to
/// `Paused`, reading "Session stalled".
pub proof fn law_watchdog_fires_on_a_silent_busy_state(m: MachineView, now: nat)
    requires
        m.wf(),
        spec_is_busy(m.state),
        now >= m.last_event_at + m.timings.stale@,
    ensures
        after_tick(m, now).state == ClawdState::Paused,
        after_tick(m, now).label == STALLED@,
        tick_target(m, now) is Some,
{
}

/// A state waiting on the human is quiet by nature: no tick ever touches it.
pub proof fn law_timers_leave_blocking_states_alone(m: MachineView, now: nat)
    requires
        m.wf(),
        spec_is_blocking(m.state),
    ensures
        tick_target(m, now) is None,
        after_tick(m, now) == m,
{
}

/// `Success` settles back to `Idle`, reading "Ready", once it has been held.
pub proof fn law_success_settles_to_ready(m: MachineView, now: nat)
    requires
        m.wf(),
        m.state == ClawdState::Success,
        m.deadline matches Some((at, _)) && at <= now,
    ensures
        after_tick(m, now).state == ClawdState::Idle,
        after_tick(m, now).label == READY@,
{
}

/// One tick does everything there is to do at an instant: a second tick at
/// the same instant moves nothing.
pub proof fn law_tick_settles(m: MachineView, now: nat)
    requires
        m.wf(),
    ensures
        tick_target(after_tick(m, now), now) is None,
{
}

/// `wakeup` is exactly the first instant a tick can matter: before it (and
/// not before the last event) every tick is idle, and at it the tick acts.
pub proof fn law_wakeup_is_the_next_instant_that_matters(m: MachineView, now: nat)
    requires
        m.wf(),
        now >= m.last_event_at,
    ensures
        wakeup(m) is None ==> tick_target(m, now) is None,
        wakeup(m) matches Some(w) ==> (now < w ==> tick_target(m, now) is None),
        wakeup(m) matches Some(w) ==> tick_target(m, w) is Some,
{
}

/// New thresholds take effect on the state already running: what is shown and
/// who owns the pet are kept, a running `Working` waits the new long-task
/// time from now (or the new watchdog from its last event, if sooner), a
/// running `Success` holds the new time from now, and a machine with nothing
/// pending still has nothing pending.
pub proof fn law_new_timings_rearm_the_running_state(m: MachineView, t: Timings, now: nat)
    requires
        m.wf(),
    ensures
        after_set_timings(m, t, now).state == m.state,
        after_set_timings(m, t, now).label == m.label,
        after_set_timings(m, t, now).owner == m.owner,
        after_set_timings(m, t, now).timings == t,
        m.state == ClawdState::Working ==> wakeup(after_set_timings(m, t, now)) == Some(
            if m.last_event_at + t.stale@ <= now + t.long_task@ {
                m.last_event_at + t.stale@
            } else {
                now + t.long_task@
            },
        ),
        m.state == ClawdState::Success ==> wakeup(after_set_timings(m, t, now)) == Some(
            now + t.success_hold@,
        ),
        wakeup(m) is None ==> wakeup(after_set_timings(m, t, now)) is None,
{
}

impl Machine {
    pub fn new(timings: Timings, now: Instant) -> (r: Machine)
        ensures
            r@ == initial(timings, now@),
            r@.wf(),
    {
        proof {
            lemma_fixed_labels_fit();
        }
        Machine {
            timings,
            state: ClawdState::Idle,
            label: READY.to_owned(),
            owner: None,
            deadline: None,
            last_event_at: now,
        }
    }

    pub fn snapshot(&self) -> (r: Snapshot)
        ensures
            shows(r, self@),
    {
        Snapshot { state: self.state, label: self.label.clone() }
    }

    pub fn state(&self) -> (r: ClawdState)
        ensures
            r == self@.state,
    {
        self.state
    }

    pub fn owner(&self) -> (r: Option<&str>)
        ensures
            match r {
                Some(o) => self@.owner == Some(o@),
                None => self@.owner is None,
            },
    {
        match &self.owner {
            Some(o) => Some(o.as_str()),
            None => None,
        }
    }

    pub fn timings(&self) -> (r: Timings)
        ensures
            r == self@.timings,
    {
        self.timings
    }

    /// Swap the thresholds (the dev harness shrinks them).
    ///
    /// Any pending deadline is rebased on the new thresholds, from `now`, so
    /// the change takes effect on the state already running.
    pub fn set_timings(&mut self, timings: Timings, now: Instant)
        requires
            old(self)@.wf(),
            old(self)@.deadline matches Some((_, d)) ==> now@ + deadline_wait(timings, d)
                <= u64::MAX,
        ensures
            final(self)@ == after_set_timings(old(self)@, timings, now@),
            final(self)@.wf(),
    {
        self.timings = timings;
        match self.deadline {
            Some((_, deadline)) => self.arm(deadline, now),
            None => {},
        }
    }

    /// Feed an event in. Returns a snapshot only when something observable
    /// changed, so identical repeats do not thrash the renderer.
    pub fn apply(&mut self, event: &SessionEvent, now: Instant) -> (r: Option<Snapshot>)
        requires
            old(self)@.wf(),
            apply_fits(old(self)@, event@, now@),
        ensures
            final(self)@ == after_apply(old(self)@, event@, now@),
            final(self)@.wf(),
            r is Some <==> apply_reports(old(self)@, event@),
            r matches Some(s) ==> shows(s, final(self)@),
    {
        proof {
            lemma_apply_wf(self@, event@, now@);
        }
        if !self.may_own(event.session_id.as_str()) {
            return None;
        }
        self.owner = Some(event.session_id.clone());
        self.last_event_at = now;

        let next = next_state(&event.kind);
        let text = label::for_event(&event.kind);
        self.transition(next, text, now)
    }

    /// Advance the timers. Called on a low-frequency tick from the shell.
    pub fn tick(&mut self, now: Instant) -> (r: Option<Snapshot>)
        requires
            old(self)@.wf(),
        ensures
            final(self)@ == after_tick(old(self)@, now@),
            final(self)@.wf(),
            r is Some <==> tick_target(old(self)@, now@) is Some,
            r matches Some(s) ==> shows(s, final(self)@),
    {
        proof {
            lemma_tick_wf(self@, now@);
            lemma_tick_moves_are_visible(self@, now@);
            reveal_strlit("Session stalled");
            reveal_strlit("Ready");
        }
        // The watchdog outranks the state deadlines: if the session has gone
        // quiet there is nothing to promote it to.
        if self.state.is_busy() && now.duration_since(self.last_event_at).millis
            >= self.timings.stale.millis {
            return self.transition(ClawdState::Paused, STALLED.to_owned(), now);
        }
        let (at, deadline) = match self.deadline {
            Some(pending) => pending,
            None => return None,
        };
        if now.millis < at.millis {
            return None;
        }
        match deadline {
            // The label is kept: whatever tool is running is still running,
            // and the long-task pose adds the elapsed meter, not new words.
            Deadline::LongTask => {
                let held = self.label.clone();
                self.transition(ClawdState::LongTask, held, now)
            },
            Deadline::SuccessExpiry => self.transition(ClawdState::Idle, READY.to_owned(), now),
        }
    }

    /// One pass of the shell's loop: the event that arrived, if any, then the
    /// timers. Returns the snapshot to show, if anything visible changed.
    pub fn advance(&mut self, event: Option<&SessionEvent>, now: Instant) -> (r: Option<
        Snapshot,
    >)
        requires
            old(self)@.wf(),
            event matches Some(e) ==> apply_fits(old(self)@, e@, now@),
        ensures
            final(self)@ == after_advance(
                old(self)@,
                match event {
                    Some(e) => Some(e@),
                    None => None,
                },
                now@,
            ),
            final(self)@.wf(),
            r is Some <==> (match event {
                Some(e) => apply_reports(old(self)@, e@) || tick_target(
                    after_apply(old(self)@, e@, now@),
                    now@,
                ) is Some,
                None => tick_target(old(self)@, now@) is Some,
            }),
            r matches Some(s) ==> shows(s, final(self)@),
    {
        let applied = match event {
            Some(e) => self.apply(e, now),
            None => None,
        };
        proof {
            lemma_tick_moves_are_visible(self@, now@);
        }
        let ticked = self.tick(now);
        match ticked {
            Some(s) => Some(s),
            None => applied,
        }
    }

    /// When the next tick could possibly matter, so a shell that would rather
    /// sleep than poll can. `None` when nothing is pending.
    pub fn next_wakeup(&self) -> (r: Option<Instant>)
        requires
            self@.last_event_at + self@.timings.stale@ <= u64::MAX,
        ensures
            match r {
                Some(t) => wakeup(self@) == Some(t@),
                None => wakeup(self@) is None,
            },
    {
        let stale = if self.state.is_busy() {
            Some(self.last_event_at.plus(self.timings.stale))
        } else {
            None
        };
        let deadline = match self.deadline {
            Some((at, _)) => Some(at),
            None => None,
        };
        match (stale, deadline) {
            (Some(a), Some(b)) => Some(
                if a.millis <= b.millis {
                    a
                } else {
                    b
                },
            ),
            (Some(a), None) => Some(a),
            (None, b) => b,
        }
    }

    /// Whether `session_id` may take the machine over.
    fn may_own(&self, session_id: &str) -> (r: bool)
        ensures
            r == may_own(self@, session_id@),
    {
        match &self.owner {
            Some(owner) => same_text(owner.as_str(), session_id) || !self.state.is_blocking(),
            None => true,
        }
    }

    fn transition(&mut self, next: ClawdState, label: String, now: Instant) -> (r: Option<
        Snapshot,
    >)
        requires
            (changes(old(self)@, next, label@) || (next == ClawdState::Working && old(self)@.state
                == ClawdState::Working)) ==> arming_fits(old(self)@.timings, next, now@),
        ensures
            final(self)@ == after_transition(old(self)@, next, label@, now@),
            r is Some <==> changes(old(self)@, next, label@),
            r matches Some(s) ==> shows(s, final(self)@),
    {
        let changed = next != self.state || !(label == self.label);
        let re_entered_working = next == ClawdState::Working && self.state == ClawdState::Working;

        self.state = next;
        self.label = label;

        // Re-arm even when the state did not change: a second tool call in a
        // row restarts the long-task clock, which is the honest reading of
        // "this one tool is taking a while".
        if changed || re_entered_working {
            match next {
                ClawdState::Working => self.arm(Deadline::LongTask, now),
                ClawdState::Success => self.arm(Deadline::SuccessExpiry, now),
                _ => self.deadline = None,
            }
        }
        if changed {
            Some(self.snapshot())
        } else {
            None
        }
    }

    fn arm(&mut self, deadline: Deadline, now: Instant)
        requires
            now@ + deadline_wait(old(self)@.timings, deadline) <= u64::MAX,
        ensures
            final(self)@ == (MachineView {
                deadline: Some((now@ + deadline_wait(old(self)@.timings, deadline), deadline)),
                ..old(self)@
            }),
    {
        let after = match deadline {
            Deadline::LongTask => self.timings.long_task,
            Deadline::SuccessExpiry => self.timings.success_hold,
        };
        self.deadline = Some((now.plus(after), deadline));
    }
}

/// The transition table as code.
fn next_state(kind: &EventKind) -> (r: ClawdState)
    ensures
        r == state_for_event(kind@),
{
    match kind {
        EventKind::SessionStarted => ClawdState::Idle,
        EventKind::PromptSubmitted => ClawdState::Thinking,
        EventKind::ToolStarted { .. } => ClawdState::Working,
        EventKind::ToolFinished => ClawdState::Thinking,
        EventKind::ToolFailed { .. } => ClawdState::Failed,
        EventKind::PermissionRequested { .. } => ClawdState::NeedsPermission,
        EventKind::AttentionNeeded => ClawdState::NeedsInput,
        EventKind::TurnFinished { .. } => ClawdState::Success,
        EventKind::TurnFailed { .. } => ClawdState::Failed,
        EventKind::CompactStarted => ClawdState::Compacting,
        EventKind::CompactFinished => ClawdState::Thinking,
        EventKind::SessionEnded => ClawdState::Paused,
    }
}

} // verus!
