//! Clawd's own event vocabulary.
//!
//! These are domain events, not hook events. The hook module translates
//! `PreToolUse` into `ToolStarted`; the state machine never learns that
//! the agent exists. That seam is what lets the mock be a faithful
//! stand-in.

use vstd::prelude::*;

use crate::time::Duration;

verus! {

/// An event about one session.
///
/// Every event carries a `session_id`, so several sessions can share the pet.
#[derive(Debug, Clone, PartialEq, Eq)]
pub struct SessionEvent {
    pub session_id: String,
    pub kind: EventKind,
}

#[derive(Debug, Clone, PartialEq, Eq)]
pub enum EventKind {
    SessionStarted,
    PromptSubmitted,
    ToolStarted {
        /// Tool name as the agent knows it: `Edit`, `Bash`, `Read`, …
        name: String,
        /// What it is acting on: a file path, or a command.
        target: Option<String>,
    },
    ToolFinished,
    ToolFailed { kind: Option<FailureKind> },
    PermissionRequested {
        /// The verb being asked about, e.g. `edit`, so the chip can read
        /// "Allow edit?".
        action: Option<String>,
    },
    AttentionNeeded,
    TurnFinished {
        /// Wall time for the turn, where the source can supply it.
        duration: Option<Duration>,
    },
    TurnFailed { kind: Option<FailureKind> },
    CompactStarted,
    CompactFinished,
    SessionEnded,
}

/// Why something failed, where the source knows.
///
/// Only ever used to colour the label.
#[derive(Debug, Clone, PartialEq, Eq)]
pub enum FailureKind {
    RateLimit,
    Timeout,
    Cancelled,
    ToolError,
    Other(String),
}

/// A session event as values: text as characters, durations in milliseconds.
pub struct SessionEventView {
    pub session_id: Seq<char>,
    pub kind: EventKindView,
}

pub enum EventKindView {
    SessionStarted,
    PromptSubmitted,
    ToolStarted { name: Seq<char>, target: Option<Seq<char>> },
    ToolFinished,
    ToolFailed { kind: Option<FailureKindView> },
    PermissionRequested { action: Option<Seq<char>> },
    AttentionNeeded,
    TurnFinished { duration: Option<nat> },
    TurnFailed { kind: Option<FailureKindView> },
    CompactStarted,
    CompactFinished,
    SessionEnded,
}

pub enum FailureKindView {
    RateLimit,
    Timeout,
    Cancelled,
    ToolError,
    Other(Seq<char>),
}

pub open spec fn opt_text(o: Option<String>) -> Option<Seq<char>> {
    match o {
        Some(s) => Some(s@),
        None => None,
    }
}

impl View for FailureKind {
    type V = FailureKindView;

    open spec fn view(&self) -> FailureKindView {
        match self {
            FailureKind::RateLimit => FailureKindView::RateLimit,
            FailureKind::Timeout => FailureKindView::Timeout,
            FailureKind::Cancelled => FailureKindView::Cancelled,
            FailureKind::ToolError => FailureKindView::ToolError,
            FailureKind::Other(detail) => FailureKindView::Other(detail@),
        }
    }
}

pub open spec fn opt_failure(o: Option<FailureKind>) -> Option<FailureKindView> {
    match o {
        Some(k) => Some(k@),
        None => None,
    }
}

impl View for EventKind {
    type V = EventKindView;

    open spec fn view(&self) -> EventKindView {
        match self {
            EventKind::SessionStarted => EventKindView::SessionStarted,
            EventKind::PromptSubmitted => EventKindView::PromptSubmitted,
            EventKind::ToolStarted { name, target } => EventKindView::ToolStarted {
                name: name@,
                target: opt_text(*target),
            },
            EventKind::ToolFinished => EventKindView::ToolFinished,
            EventKind::ToolFailed { kind } => EventKindView::ToolFailed { kind: opt_failure(*kind) },
            EventKind::PermissionRequested { action } => EventKindView::PermissionRequested {
                action: opt_text(*action),
            },
            EventKind::AttentionNeeded => EventKindView::AttentionNeeded,
            EventKind::TurnFinished { duration } => EventKindView::TurnFinished {
                duration: match duration {
                    Some(d) => Some(d@),
                    None => None,
                },
            },
            EventKind::TurnFailed { kind } => EventKindView::TurnFailed { kind: opt_failure(*kind) },
            EventKind::CompactStarted => EventKindView::CompactStarted,
            EventKind::CompactFinished => EventKindView::CompactFinished,
            EventKind::SessionEnded => EventKindView::SessionEnded,
        }
    }
}

impl View for SessionEvent {
    type V = SessionEventView;

    open spec fn view(&self) -> SessionEventView {
        SessionEventView { session_id: self.session_id@, kind: self.kind@ }
    }
}

pub open spec fn opt_event(o: Option<SessionEvent>) -> Option<SessionEventView> {
    match o {
        Some(e) => Some(e@),
        None => None,
    }
}

/// The short phrase a failure is described by.
pub open spec fn failure_phrase(k: FailureKindView) -> Seq<char> {
    match k {
        FailureKindView::RateLimit => "Rate limited"@,
        FailureKindView::Timeout => "Timed out"@,
        FailureKindView::Cancelled => "Cancelled"@,
        FailureKindView::ToolError => "Tool failed"@,
        FailureKindView::Other(detail) => detail,
    }
}

impl SessionEvent {
    pub fn new(session_id: &str, kind: EventKind) -> (r: SessionEvent)
        ensures
            r.session_id@ == session_id@,
            r.kind == kind,
    {
        SessionEvent { session_id: session_id.to_owned(), kind }
    }
}

impl FailureKind {
    /// A short human phrase. Deliberately generic: nothing here is parsed out
    /// of tool output.
    pub fn describe(&self) -> (r: &str)
        ensures
            r@ == failure_phrase(self@),
    {
        match self {
            FailureKind::RateLimit => "Rate limited",
            FailureKind::Timeout => "Timed out",
            FailureKind::Cancelled => "Cancelled",
            FailureKind::ToolError => "Tool failed",
            FailureKind::Other(detail) => detail.as_str(),
        }
    }
}

} // verus!
