//! The ten states Clawd can be in.

use vstd::prelude::*;

use crate::text::same_text;

verus! {

/// Every state the pet can render.
///
/// `LongTask` is a state in its own right rather than a flag on `Working`,
/// because the renderer stays dumb and the pose genuinely changes: paw
/// drumming gives way to a slower bob plus the elapsed meter.
#[derive(Debug, Clone, Copy, PartialEq, Eq, Hash, Structural)]
pub enum ClawdState {
    Idle,
    Thinking,
    Working,
    NeedsInput,
    NeedsPermission,
    Success,
    Failed,
    Paused,
    LongTask,
    Compacting,
}

/// States that are waiting on the human.
pub open spec fn spec_is_blocking(s: ClawdState) -> bool {
    s == ClawdState::NeedsInput || s == ClawdState::NeedsPermission || s == ClawdState::Failed
}

/// States that claim work is in flight, and so are watched for staleness.
pub open spec fn spec_is_busy(s: ClawdState) -> bool {
    s == ClawdState::Thinking || s == ClawdState::Working || s == ClawdState::LongTask
        || s == ClawdState::Compacting
}

/// The stable camelCase identifier of a state, as the webview sees it.
pub open spec fn state_name(s: ClawdState) -> Seq<char> {
    match s {
        ClawdState::Idle => "idle"@,
        ClawdState::Thinking => "thinking"@,
        ClawdState::Working => "working"@,
        ClawdState::NeedsInput => "needsInput"@,
        ClawdState::NeedsPermission => "needsPermission"@,
        ClawdState::Success => "success"@,
        ClawdState::Failed => "failed"@,
        ClawdState::Paused => "paused"@,
        ClawdState::LongTask => "longTask"@,
        ClawdState::Compacting => "compacting"@,
    }
}

impl ClawdState {
    /// Every state, in the order the dev harness binds them to keys 1-0.
    pub const ALL: [ClawdState; 10] = [
        ClawdState::Idle,
        ClawdState::Thinking,
        ClawdState::Working,
        ClawdState::NeedsInput,
        ClawdState::NeedsPermission,
        ClawdState::Success,
        ClawdState::Failed,
        ClawdState::Paused,
        ClawdState::LongTask,
        ClawdState::Compacting,
    ];

    /// States that are waiting on the human.
    ///
    /// These are sticky: a chattier second session must not be able to
    /// overwrite the one state the app exists to surface.
    pub fn is_blocking(self) -> (r: bool)
        ensures
            r == spec_is_blocking(self),
    {
        match self {
            ClawdState::NeedsInput | ClawdState::NeedsPermission | ClawdState::Failed => true,
            _ => false,
        }
    }

    /// States that claim work is in flight, and so are subject to the
    /// staleness watchdog. Silent-but-wrong is worse than silent.
    pub fn is_busy(self) -> (r: bool)
        ensures
            r == spec_is_busy(self),
    {
        match self {
            ClawdState::Thinking | ClawdState::Working | ClawdState::LongTask
            | ClawdState::Compacting => true,
            _ => false,
        }
    }

    /// Stable identifier, matching the camelCase wire form the webview sees.
    pub fn as_str(self) -> (r: &'static str)
        ensures
            r@ == state_name(self),
    {
        match self {
            ClawdState::Idle => "idle",
            ClawdState::Thinking => "thinking",
            ClawdState::Working => "working",
            ClawdState::NeedsInput => "needsInput",
            ClawdState::NeedsPermission => "needsPermission",
            ClawdState::Success => "success",
            ClawdState::Failed => "failed",
            ClawdState::Paused => "paused",
            ClawdState::LongTask => "longTask",
            ClawdState::Compacting => "compacting",
        }
    }

    /// The state a stable identifier names, if it names one.
    pub fn parse(name: &str) -> (r: Option<ClawdState>)
        ensures
            r == state_named(name@),
    {
        if same_text(name, "idle") {
            Some(ClawdState::Idle)
        } else if same_text(name, "thinking") {
            Some(ClawdState::Thinking)
        } else if same_text(name, "working") {
            Some(ClawdState::Working)
        } else if same_text(name, "needsInput") {
            Some(ClawdState::NeedsInput)
        } else if same_text(name, "needsPermission") {
            Some(ClawdState::NeedsPermission)
        } else if same_text(name, "success") {
            Some(ClawdState::Success)
        } else if same_text(name, "failed") {
            Some(ClawdState::Failed)
        } else if same_text(name, "paused") {
            Some(ClawdState::Paused)
        } else if same_text(name, "longTask") {
            Some(ClawdState::LongTask)
        } else if same_text(name, "compacting") {
            Some(ClawdState::Compacting)
        } else {
            None
        }
    }
}

/// The state whose identifier is `name`, if any.
pub open spec fn state_named(name: Seq<char>) -> Option<ClawdState> {
    if name == "idle"@ {
        Some(ClawdState::Idle)
    } else if name == "thinking"@ {
        Some(ClawdState::Thinking)
    } else if name == "working"@ {
        Some(ClawdState::Working)
    } else if name == "needsInput"@ {
        Some(ClawdState::NeedsInput)
    } else if name == "needsPermission"@ {
        Some(ClawdState::NeedsPermission)
    } else if name == "success"@ {
        Some(ClawdState::Success)
    } else if name == "failed"@ {
        Some(ClawdState::Failed)
    } else if name == "paused"@ {
        Some(ClawdState::Paused)
    } else if name == "longTask"@ {
        Some(ClawdState::LongTask)
    } else if name == "compacting"@ {
        Some(ClawdState::Compacting)
    } else {
        None
    }
}

/// No state is both waiting on the human and claiming work is in flight, so
/// the watchdog and the stickiness never apply to the same state.
pub proof fn law_blocking_and_busy_are_disjoint(s: ClawdState)
    ensures
        !(spec_is_blocking(s) && spec_is_busy(s)),
{
}

/// `parse` reads back what `as_str` writes, so distinct states have
/// distinct identifiers.
pub proof fn law_parse_inverts_as_str(s: ClawdState)
    ensures
        state_named(state_name(s)) == Some(s),
{
    reveal_strlit("idle");
    reveal_strlit("thinking");
    reveal_strlit("working");
    reveal_strlit("needsInput");
    reveal_strlit("needsPermission");
    reveal_strlit("success");
    reveal_strlit("failed");
    reveal_strlit("paused");
    reveal_strlit("longTask");
    reveal_strlit("compacting");
    assert("idle"@.len() == 4 && "idle"@[0] == 'i');
    assert("thinking"@.len() == 8 && "thinking"@[0] == 't');
    assert("working"@.len() == 7 && "working"@[0] == 'w');
    assert("needsInput"@.len() == 10 && "needsInput"@[0] == 'n');
    assert("needsPermission"@.len() == 15 && "needsPermission"@[0] == 'n');
    assert("success"@.len() == 7 && "success"@[0] == 's');
    assert("failed"@.len() == 6 && "failed"@[0] == 'f');
    assert("paused"@.len() == 6 && "paused"@[0] == 'p');
    assert("longTask"@.len() == 8 && "longTask"@[0] == 'l');
    assert("compacting"@.len() == 10 && "compacting"@[0] == 'c');
}

} // verus!
