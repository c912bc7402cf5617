//! Hook payloads from the coding agent, read into Clawd's own vocabulary.
//!
//! This is the whole of what Clawd knows about the coding agent. Everything below
//! this module speaks `SessionEvent`, so the state machine never learns that
//! hooks exist, and the mock stays a faithful stand-in.
//!
//! **What is read, and what is not.** The payload names the fields Clawd
//! needs and `ToolInput` names the seven keys a target can come from. The
//! body is parsed whole into a `Json` tree first, so the rest of it (prompts,
//! assistant messages, tool output, transcript paths, file contents) is held
//! while the payload is read, and dropped with the tree straight after. None
//! of it can reach the event: `law_unread_keys_cannot_reach_the_event`.

use vstd::prelude::*;

use crate::event::{
    opt_text, EventKind, EventKindView, FailureKind, FailureKindView, SessionEvent,
    SessionEventView,
};
use crate::json::{self, field, field_of, opt_ref, parsed_json, Json};
use crate::text::{first_chars, first_n_chars, has_prefix, same_text, starts_with, trim, trimmed};
use crate::machine::state_for_event;
use crate::state::ClawdState;

verus! {

/// Longest a `ToolStarted` target may be, in characters.
///
/// Not about the chip, which is far narrower: it keeps a whole command line
/// from being carried through the channel only to be thrown away.
pub const MAX_TARGET: usize = 120;

/// A hook payload from the coding agent, in the only fields Clawd reads.
///
/// A flat struct with a text discriminant rather than an enum: a hook event
/// the agent grows later is then simply not an event, never a parse
/// failure.
#[derive(Debug, Clone)]
pub struct HookPayload {
    pub hook_event_name: String,
    /// Required: this is the ownership key, and a defaulted empty id would
    /// silently merge distinct sessions into one.
    pub session_id: String,
    /// Present on subagent events. Its presence is what makes them droppable.
    pub agent_id: Option<String>,
    pub tool_name: Option<String>,
    pub tool_input: Option<ToolInput>,
    pub notification_type: Option<String>,
    /// `StopFailure`'s reason, read from `error`, or from `error_type` when
    /// `error` is absent.
    pub error: Option<String>,
    /// True when a tool call ended because the user pressed Esc. A deliberate
    /// interrupt is not a failure and must not paint the pet red.
    pub is_interrupt: Option<bool>,
    /// How the session began (`startup`, `resume`, `clear`, `compact`,
    /// `fork`), read from `source`, or from `how_started` when `source` is
    /// absent.
    pub source: Option<String>,
}

/// The subject of a tool call, across the shapes different tools use.
///
/// Naming the seven keys is what keeps a `Write`'s `content` (the file it is
/// writing) out of the process.
#[derive(Debug, Clone, Default)]
pub struct ToolInput {
    pub file_path: Option<String>,
    pub notebook_path: Option<String>,
    pub command: Option<String>,
    pub pattern: Option<String>,
    pub url: Option<String>,
    pub description: Option<String>,
    pub path: Option<String>,
}

/// The payload fields, for saying which one a body got wrong.
#[derive(Debug, Clone, Copy, PartialEq, Eq, Structural)]
pub enum Field {
    HookEventName,
    SessionId,
    AgentId,
    ToolName,
    ToolInput,
    NotificationType,
    Error,
    IsInterrupt,
    Source,
}

/// A body that was not a hook payload at all.
#[derive(Debug, Clone, Copy, PartialEq, Eq, Structural)]
pub enum HookError {
    /// The bytes are not one JSON document.
    NotJson,
    /// The document is neither a JSON object nor an array of fields.
    NotAnObject,
    /// A required field is absent.
    MissingField(Field),
    /// A field holds a value of the wrong kind.
    WrongType(Field),
    /// An array of fields has more elements than there are fields.
    ExtraElements,
}

pub struct ToolInputView {
    pub file_path: Option<Seq<char>>,
    pub notebook_path: Option<Seq<char>>,
    pub command: Option<Seq<char>>,
    pub pattern: Option<Seq<char>>,
    pub url: Option<Seq<char>>,
    pub description: Option<Seq<char>>,
    pub path: Option<Seq<char>>,
}

pub struct HookPayloadView {
    pub hook_event_name: Seq<char>,
    pub session_id: Seq<char>,
    pub agent_id: Option<Seq<char>>,
    pub tool_name: Option<Seq<char>>,
    pub tool_input: Option<ToolInputView>,
    pub notification_type: Option<Seq<char>>,
    pub error: Option<Seq<char>>,
    pub is_interrupt: Option<bool>,
    pub source: Option<Seq<char>>,
}

impl View for ToolInput {
    type V = ToolInputView;

    open spec fn view(&self) -> ToolInputView {
        ToolInputView {
            file_path: opt_text(self.file_path),
            notebook_path: opt_text(self.notebook_path),
            command: opt_text(self.command),
            pattern: opt_text(self.pattern),
            url: opt_text(self.url),
            description: opt_text(self.description),
            path: opt_text(self.path),
        }
    }
}

impl View for HookPayload {
    type V = HookPayloadView;

    open spec fn view(&self) -> HookPayloadView {
        HookPayloadView {
            hook_event_name: self.hook_event_name@,
            session_id: self.session_id@,
            agent_id: opt_text(self.agent_id),
            tool_name: opt_text(self.tool_name),
            tool_input: match self.tool_input {
                Some(t) => Some(t@),
                None => None,
            },
            notification_type: opt_text(self.notification_type),
            error: opt_text(self.error),
            is_interrupt: self.is_interrupt,
            source: opt_text(self.source),
        }
    }
}

// ---------------------------------------------------------------------------
// The schema: which JSON documents are hook payloads, and which payload each
// one is.
// ---------------------------------------------------------------------------

/// A required text field.
pub open spec fn required_text_of(v: Option<Json>, f: Field) -> Result<Seq<char>, HookError> {
    match v {
        Some(Json::Text(s)) => Ok(s@),
        Some(_) => Err(HookError::WrongType(f)),
        None => Err(HookError::MissingField(f)),
    }
}

/// An optional text field: absent or `null` is `None`.
pub open spec fn optional_text_of(v: Option<Json>, f: Field) -> Result<Option<Seq<char>>, HookError> {
    match v {
        Some(Json::Text(s)) => Ok(Some(s@)),
        Some(Json::Null) => Ok(None),
        Some(_) => Err(HookError::WrongType(f)),
        None => Ok(None),
    }
}

/// An optional text field read from `v`, with `w` as a second name consulted
/// only when `v` is absent, and then only for text: a value of another kind
/// under the second name is not read at all.
pub open spec fn aliased_text_of(v: Option<Json>, w: Option<Json>, f: Field) -> Result<
    Option<Seq<char>>,
    HookError,
> {
    match v {
        None => Ok(text_of(w)),
        Some(_) => optional_text_of(v, f),
    }
}

/// An optional boolean field.
pub open spec fn optional_bool_of(v: Option<Json>, f: Field) -> Result<Option<bool>, HookError> {
    match v {
        Some(Json::Bool(b)) => Ok(Some(b)),
        Some(Json::Null) => Ok(None),
        Some(_) => Err(HookError::WrongType(f)),
        None => Ok(None),
    }
}

/// A target key contributes only when it holds text: a tool may reuse these
/// names for anything, and that must neither reject the payload nor put a
/// serialised array in the chip.
pub open spec fn text_of(v: Option<Json>) -> Option<Seq<char>> {
    match v {
        Some(Json::Text(s)) => Some(s@),
        _ => None,
    }
}

pub open spec fn tool_input_of(fields: Seq<(String, Json)>) -> ToolInputView {
    ToolInputView {
        file_path: text_of(field_of(fields, "file_path"@)),
        notebook_path: text_of(field_of(fields, "notebook_path"@)),
        command: text_of(field_of(fields, "command"@)),
        pattern: text_of(field_of(fields, "pattern"@)),
        url: text_of(field_of(fields, "url"@)),
        description: text_of(field_of(fields, "description"@)),
        path: text_of(field_of(fields, "path"@)),
    }
}

/// The `i`th element of an array of fields, if it has one.
pub open spec fn element_at(items: Seq<Json>, i: int) -> Option<Json> {
    if 0 <= i < items.len() {
        Some(items[i])
    } else {
        None
    }
}

/// `tool_input` written as an array: its fields in declaration order.
pub open spec fn tool_input_of_items(items: Seq<Json>) -> ToolInputView {
    ToolInputView {
        file_path: text_of(element_at(items, 0)),
        notebook_path: text_of(element_at(items, 1)),
        command: text_of(element_at(items, 2)),
        pattern: text_of(element_at(items, 3)),
        url: text_of(element_at(items, 4)),
        description: text_of(element_at(items, 5)),
        path: text_of(element_at(items, 6)),
    }
}

/// The optional `tool_input`: an object, or an array of at most its seven
/// fields in order.
pub open spec fn optional_input_of(v: Option<Json>) -> Result<Option<ToolInputView>, HookError> {
    match v {
        Some(Json::Object(fs)) => Ok(Some(tool_input_of(fs@))),
        Some(Json::Array(items)) => if items@.len() > 7 {
            Err(HookError::ExtraElements)
        } else {
            Ok(Some(tool_input_of_items(items@)))
        },
        Some(Json::Null) => Ok(None),
        Some(_) => Err(HookError::WrongType(Field::ToolInput)),
        None => Ok(None),
    }
}

/// The payload from its nine fields as read, or the first field's refusal in
/// declaration order.
pub open spec fn assemble(
    name: Result<Seq<char>, HookError>,
    session: Result<Seq<char>, HookError>,
    agent: Result<Option<Seq<char>>, HookError>,
    tool: Result<Option<Seq<char>>, HookError>,
    input: Result<Option<ToolInputView>, HookError>,
    note: Result<Option<Seq<char>>, HookError>,
    error: Result<Option<Seq<char>>, HookError>,
    interrupt: Result<Option<bool>, HookError>,
    source: Result<Option<Seq<char>>, HookError>,
) -> Result<HookPayloadView, HookError> {
    match (name, session, agent, tool, input, note, error, interrupt, source) {
        (Ok(n), Ok(s), Ok(a), Ok(t), Ok(i), Ok(no), Ok(e), Ok(b), Ok(so)) => Ok(
            HookPayloadView {
                hook_event_name: n,
                session_id: s,
                agent_id: a,
                tool_name: t,
                tool_input: i,
                notification_type: no,
                error: e,
                is_interrupt: b,
                source: so,
            },
        ),
        (Err(x), _, _, _, _, _, _, _, _) => Err(x),
        (_, Err(x), _, _, _, _, _, _, _) => Err(x),
        (_, _, Err(x), _, _, _, _, _, _) => Err(x),
        (_, _, _, Err(x), _, _, _, _, _) => Err(x),
        (_, _, _, _, Err(x), _, _, _, _) => Err(x),
        (_, _, _, _, _, Err(x), _, _, _) => Err(x),
        (_, _, _, _, _, _, Err(x), _, _) => Err(x),
        (_, _, _, _, _, _, _, Err(x), _) => Err(x),
        (_, _, _, _, _, _, _, _, Err(x)) => Err(x),
    }
}

/// The payload a JSON document is, or why it is not one.
///
/// An object names its fields; keys other than the named ones are ignored.
/// An array gives the fields in declaration order, trailing optional ones
/// left out, and no more elements than there are fields. Fields are checked
/// in declaration order.
pub open spec fn payload_of_json(j: Json) -> Result<HookPayloadView, HookError> {
    match j {
        Json::Object(entries) => {
            let fs = entries@;
            assemble(
                required_text_of(field_of(fs, "hook_event_name"@), Field::HookEventName),
                required_text_of(field_of(fs, "session_id"@), Field::SessionId),
                optional_text_of(field_of(fs, "agent_id"@), Field::AgentId),
                optional_text_of(field_of(fs, "tool_name"@), Field::ToolName),
                optional_input_of(field_of(fs, "tool_input"@)),
                optional_text_of(field_of(fs, "notification_type"@), Field::NotificationType),
                aliased_text_of(field_of(fs, "error"@), field_of(fs, "error_type"@), Field::Error),
                optional_bool_of(field_of(fs, "is_interrupt"@), Field::IsInterrupt),
                aliased_text_of(field_of(fs, "source"@), field_of(fs, "how_started"@), Field::Source),
            )
        },
        Json::Array(items) => {
            let is = items@;
            match assemble(
                required_text_of(element_at(is, 0), Field::HookEventName),
                required_text_of(element_at(is, 1), Field::SessionId),
                optional_text_of(element_at(is, 2), Field::AgentId),
                optional_text_of(element_at(is, 3), Field::ToolName),
                optional_input_of(element_at(is, 4)),
                optional_text_of(element_at(is, 5), Field::NotificationType),
                optional_text_of(element_at(is, 6), Field::Error),
                optional_bool_of(element_at(is, 7), Field::IsInterrupt),
                optional_text_of(element_at(is, 8), Field::Source),
            ) {
                Ok(p) => if is.len() > 9 {
                    Err(HookError::ExtraElements)
                } else {
                    Ok(p)
                },
                Err(e) => Err(e),
            }
        },
        _ => Err(HookError::NotAnObject),
    }
}

// ---------------------------------------------------------------------------
// The translation table: which payload is which event.
// ---------------------------------------------------------------------------

/// The text of a target key, if it has any once trimmed.
pub open spec fn picked(v: Option<Seq<char>>) -> Option<Seq<char>> {
    match v {
        Some(t) => if trim(t).len() > 0 {
            Some(trim(t))
        } else {
            None
        },
        None => None,
    }
}

/// `a` when it is something, otherwise `b`.
pub open spec fn either(a: Option<Seq<char>>, b: Option<Seq<char>>) -> Option<Seq<char>> {
    if a is Some {
        a
    } else {
        b
    }
}

/// The subject of a tool call, most specific key first: `Bash` carries both
/// `command` and `description` and wants the command; `Grep` carries
/// `pattern` and `path` and wants the pattern.
pub open spec fn input_target(t: ToolInputView) -> Option<Seq<char>> {
    either(
        picked(t.file_path),
        either(
            picked(t.notebook_path),
            either(
                picked(t.command),
                either(
                    picked(t.pattern),
                    either(picked(t.url), either(picked(t.description), picked(t.path))),
                ),
            ),
        ),
    )
}

/// The target a `ToolStarted` carries: the subject, bounded to `MAX_TARGET`
/// characters.
pub open spec fn payload_target(p: HookPayloadView) -> Option<Seq<char>> {
    match p.tool_input {
        Some(t) => match input_target(t) {
            Some(s) => Some(first_chars(s, MAX_TARGET as nat)),
            None => None,
        },
        None => None,
    }
}

/// The verb the permission chip asks about, as in "Allow edit?". An unmapped
/// tool has none: "Allow Task?" reads as nonsense.
pub open spec fn verb_for_tool(tool: Seq<char>) -> Option<Seq<char>> {
    if tool == "Edit"@ || tool == "Write"@ || tool == "MultiEdit"@ || tool == "NotebookEdit"@ {
        Some("edit"@)
    } else if tool == "Read"@ || tool == "Glob"@ || tool == "Grep"@ {
        Some("read"@)
    } else if tool == "Bash"@ || tool == "BashOutput"@ || tool == "KillShell"@ {
        Some("run"@)
    } else if tool == "WebFetch"@ || tool == "WebSearch"@ {
        Some("web access"@)
    } else if has_prefix(tool, "mcp__"@) {
        Some("MCP access"@)
    } else {
        None
    }
}

/// Why a turn failed, from `StopFailure`'s reason. Unknown reasons, the
/// literal "unknown" among them, carry nothing the generic label does not.
pub open spec fn failure_for_reason(error: Option<Seq<char>>) -> Option<FailureKindView> {
    match error {
        None => None,
        Some(e) => if e == "rate_limit"@ {
            Some(FailureKindView::RateLimit)
        } else if e == "overloaded"@ {
            Some(FailureKindView::Other("Overloaded"@))
        } else if e == "authentication_failed"@ || e == "cloud_credential_error"@ {
            Some(FailureKindView::Other("Auth failed"@))
        } else if e == "oauth_org_not_allowed"@ || e == "account_on_hold"@ || e
            == "billing_error"@ {
            Some(FailureKindView::Other("Account problem"@))
        } else if e == "invalid_request"@ || e == "model_not_found"@ {
            Some(FailureKindView::Other("Request rejected"@))
        } else if e == "server_error"@ {
            Some(FailureKindView::Other("Server error"@))
        } else if e == "max_output_tokens"@ {
            Some(FailureKindView::Other("Output limit"@))
        } else {
            None
        },
    }
}

/// The event kind a payload means, if it means one.
pub open spec fn payload_kind(p: HookPayloadView) -> Option<EventKindView> {
    let n = p.hook_event_name;
    if n == "SessionStart"@ {
        // A session restarting from a compaction is not a new session: it
        // lands right after `PostCompact`, mid-turn.
        if p.source == Some("compact"@) {
            None
        } else {
            Some(EventKindView::SessionStarted)
        }
    } else if n == "UserPromptSubmit"@ {
        Some(EventKindView::PromptSubmitted)
    } else if n == "PreToolUse"@ {
        Some(
            EventKindView::ToolStarted {
                name: match p.tool_name {
                    Some(t) => t,
                    None => "tool"@,
                },
                target: payload_target(p),
            },
        )
    } else if n == "PostToolUse"@ {
        Some(EventKindView::ToolFinished)
    } else if n == "PostToolUseFailure"@ {
        // Esc is not a failure: control has been handed back.
        if p.is_interrupt == Some(true) {
            Some(EventKindView::AttentionNeeded)
        } else {
            Some(EventKindView::ToolFailed { kind: Some(FailureKindView::ToolError) })
        }
    } else if n == "PermissionRequest"@ {
        Some(
            EventKindView::PermissionRequested {
                action: match p.tool_name {
                    Some(t) => verb_for_tool(t),
                    None => None,
                },
            },
        )
    } else if n == "Notification"@ {
        // Only the two types that mean "your turn". `NeedsInput` is sticky,
        // so an unrecognised type must not be guessed into one.
        match p.notification_type {
            Some(t) => if t == "idle_prompt"@ || t == "agent_needs_input"@ {
                Some(EventKindView::AttentionNeeded)
            } else {
                None
            },
            None => None,
        }
    } else if n == "Stop"@ {
        Some(EventKindView::TurnFinished { duration: None })
    } else if n == "StopFailure"@ {
        Some(EventKindView::TurnFailed { kind: failure_for_reason(p.error) })
    } else if n == "PreCompact"@ {
        Some(EventKindView::CompactStarted)
    } else if n == "PostCompact"@ {
        Some(EventKindView::CompactFinished)
    } else if n == "SessionEnd"@ {
        Some(EventKindView::SessionEnded)
    } else {
        None
    }
}

/// The event a payload means, if it means one. Subagent events are dropped:
/// a subagent shares its parent's session, so the stickiness that protects a
/// permission prompt would give no protection against it, and a subagent's
/// `Stop` would render "Done" mid-turn.
pub open spec fn payload_event(p: HookPayloadView) -> Option<SessionEventView> {
    if p.agent_id is Some {
        None
    } else {
        match payload_kind(p) {
            Some(k) => Some(SessionEventView { session_id: p.session_id, kind: k }),
            None => None,
        }
    }
}

/// What a hook body translates to: an error when it is not a hook payload,
/// otherwise the event it means, if any.
pub open spec fn translation(body: Seq<u8>) -> Result<Option<SessionEventView>, HookError> {
    match parsed_json(body) {
        None => Err(HookError::NotJson),
        Some(j) => match payload_of_json(j) {
            Err(e) => Err(e),
            Ok(p) => Ok(payload_event(p)),
        },
    }
}

pub open spec fn payload_result(r: Result<HookPayload, HookError>) -> Result<HookPayloadView, HookError> {
    match r {
        Ok(p) => Ok(p@),
        Err(e) => Err(e),
    }
}

pub open spec fn translation_result(r: Result<Option<SessionEvent>, HookError>) -> Result<
    Option<SessionEventView>,
    HookError,
> {
    match r {
        Ok(Some(e)) => Ok(Some(e@)),
        Ok(None) => Ok(None),
        Err(e) => Err(e),
    }
}

pub open spec fn opt_failure_kind(o: Option<FailureKind>) -> Option<FailureKindView> {
    match o {
        Some(k) => Some(k@),
        None => None,
    }
}

// ---------------------------------------------------------------------------
// Laws of the translation.
// ---------------------------------------------------------------------------

/// Subagent events are dropped, whatever they are.
pub proof fn law_subagent_events_are_dropped(p: HookPayloadView)
    requires
        p.agent_id is Some,
    ensures
        payload_event(p) is None,
{
}

/// The session id is carried through untouched.
pub proof fn law_session_id_is_carried_through(p: HookPayloadView)
    ensures
        payload_event(p) matches Some(e) ==> e.session_id == p.session_id,
{
}

/// A hook event Clawd has never heard of is not an error: a well-formed
/// payload with an unknown name is understood and is simply no event.
pub proof fn law_unknown_hooks_are_no_event(p: HookPayloadView)
    requires
        p.hook_event_name != "SessionStart"@,
        p.hook_event_name != "UserPromptSubmit"@,
        p.hook_event_name != "PreToolUse"@,
        p.hook_event_name != "PostToolUse"@,
        p.hook_event_name != "PostToolUseFailure"@,
        p.hook_event_name != "PermissionRequest"@,
        p.hook_event_name != "Notification"@,
        p.hook_event_name != "Stop"@,
        p.hook_event_name != "StopFailure"@,
        p.hook_event_name != "PreCompact"@,
        p.hook_event_name != "PostCompact"@,
        p.hook_event_name != "SessionEnd"@,
    ensures
        payload_event(p) is None,
{
}

/// A target is never empty and never longer than `MAX_TARGET` characters.
pub proof fn law_targets_are_bounded(p: HookPayloadView)
    ensures
        payload_target(p) matches Some(t) ==> 0 < t.len() <= MAX_TARGET,
{
}

/// Attention is never guessed: only the two notification types that mean
/// "your turn", or a tool call the user interrupted, produce it.
pub proof fn law_attention_is_never_guessed(p: HookPayloadView)
    requires
        payload_kind(p) == Some(EventKindView::AttentionNeeded),
    ensures
        (p.hook_event_name == "Notification"@ && (p.notification_type == Some("idle_prompt"@)
            || p.notification_type == Some("agent_needs_input"@))) || (p.hook_event_name
            == "PostToolUseFailure"@ && p.is_interrupt == Some(true)),
{
}

/// `Timeout` and `Cancelled` are never read out of a hook: nothing in the
/// hook vocabulary reports them, and a guess would be rendered as fact.
pub proof fn law_no_hook_reports_timeout_or_cancelled(p: HookPayloadView)
    ensures
        payload_kind(p) matches Some(EventKindView::TurnFailed { kind: Some(k) }) ==> !(k
            is Timeout) && !(k is Cancelled),
        payload_kind(p) matches Some(EventKindView::ToolFailed { kind: Some(k) }) ==> k
            is ToolError,
{
}

/// A deliberate interrupt is not a failure: a tool call the user stopped
/// hands control back, and never paints the pet red.
pub proof fn law_interrupt_is_not_a_failure(p: HookPayloadView)
    requires
        p.hook_event_name == "PostToolUseFailure"@,
        p.is_interrupt == Some(true),
    ensures
        payload_kind(p) == Some(EventKindView::AttentionNeeded),
        state_for_event(EventKindView::AttentionNeeded) != ClawdState::Failed,
{
    reveal_strlit("PostToolUseFailure");
    reveal_strlit("SessionStart");
    reveal_strlit("UserPromptSubmit");
    reveal_strlit("PreToolUse");
    reveal_strlit("PostToolUse");
    assert(p.hook_event_name.len() == 18);
    assert(p.hook_event_name != "SessionStart"@);
    assert(p.hook_event_name != "PostToolUse"@);
    assert(p.hook_event_name != "PreToolUse"@);
    assert(p.hook_event_name != "UserPromptSubmit"@);
}

/// The session start that follows a compaction is not a new session: it is
/// no event, so the pet returns to the turn rather than to `Idle`.
pub proof fn law_compaction_does_not_restart_the_session(p: HookPayloadView)
    requires
        p.hook_event_name == "SessionStart"@,
        p.source == Some("compact"@),
    ensures
        payload_kind(p) is None,
{
}

/// Of the session starts, only the one that follows a compaction is dropped:
/// a start from `startup`, `resume`, `clear` or `fork`, or with no source at
/// all, is `SessionStarted`, and reaches the machine as that session's event
/// unless a subagent sent it.
pub proof fn law_only_a_compaction_start_is_dropped(p: HookPayloadView)
    requires
        p.hook_event_name == "SessionStart"@,
    ensures
        payload_kind(p) is None <==> p.source == Some("compact"@),
        p.source != Some("compact"@) ==> payload_kind(p) == Some(EventKindView::SessionStarted),
        p.source != Some("compact"@) && p.agent_id is None ==> payload_event(p) == Some(
            SessionEventView { session_id: p.session_id, kind: EventKindView::SessionStarted },
        ),
{
}

/// A tool call's target is the start of its subject: the subject whole when
/// it is at most `MAX_TARGET` characters, and otherwise its first
/// `MAX_TARGET` characters, so a long command line keeps its beginning.
pub proof fn law_a_target_is_the_start_of_the_subject(
    p: HookPayloadView,
    input: ToolInputView,
    subject: Seq<char>,
)
    requires
        p.tool_input == Some(input),
        input_target(input) == Some(subject),
    ensures
        subject.len() <= MAX_TARGET ==> payload_target(p) == Some(subject),
        subject.len() > MAX_TARGET ==> payload_target(p) == Some(
            subject.take(MAX_TARGET as int),
        ),
        payload_target(p) matches Some(t) ==> t.len() <= MAX_TARGET && t == subject.take(
            t.len() as int,
        ),
{
    if subject.len() <= MAX_TARGET {
        assert(subject.take(subject.len() as int) =~= subject);
    }
}

/// The subject is the first of the target keys, most specific first, that
/// holds more than white space, trimmed: a file path beats everything, and a
/// command is taken whole when no path is given.
pub proof fn law_the_subject_is_the_most_specific_key(
    input: ToolInputView,
    path: Seq<char>,
    command: Seq<char>,
)
    ensures
        (input.file_path == Some(path) && trim(path).len() > 0) ==> input_target(input) == Some(
            trim(path),
        ),
        (input.file_path is None && input.notebook_path is None && input.command == Some(command)
            && trim(command).len() > 0) ==> input_target(input) == Some(trim(command)),
        input_target(input) matches Some(s) ==> s.len() > 0,
{
}

/// There is a target exactly when the tool input has a subject.
pub proof fn law_a_target_exists_exactly_when_a_subject_does(p: HookPayloadView)
    ensures
        payload_target(p) is Some <==> (p.tool_input matches Some(input) && input_target(
            input,
        ) is Some),
{
}

/// The permission chip only ever asks about one of five verb phrases,
/// never a tool name.
pub proof fn law_permission_verbs_are_verbs(tool: Seq<char>)
    ensures
        verb_for_tool(tool) matches Some(v) ==> v == "edit"@ || v == "read"@ || v == "run"@ || v
            == "web access"@ || v == "MCP access"@,
{
}

/// The keys of a payload that are read, the target keys aside.
pub open spec fn read_key(k: Seq<char>) -> bool {
    k == "hook_event_name"@ || k == "session_id"@ || k == "agent_id"@ || k == "tool_name"@ || k
        == "notification_type"@ || k == "error"@ || k == "error_type"@ || k == "is_interrupt"@ || k
        == "source"@ || k == "how_started"@
}

/// The seven keys a target can come from.
pub open spec fn target_key(k: Seq<char>) -> bool {
    k == "file_path"@ || k == "notebook_path"@ || k == "command"@ || k == "pattern"@ || k
        == "url"@ || k == "description"@ || k == "path"@
}

/// Two objects that agree on every key that is read (and, inside
/// `tool_input`, on the seven target keys).
pub open spec fn agree_on_read_keys(a: Seq<(String, Json)>, b: Seq<(String, Json)>) -> bool {
    &&& forall|k: Seq<char>| read_key(k) ==> #[trigger] field_of(a, k) == field_of(b, k)
    &&& match (field_of(a, "tool_input"@), field_of(b, "tool_input"@)) {
        (Some(Json::Object(x)), Some(Json::Object(y))) => forall|k: Seq<char>|
            target_key(k) ==> #[trigger] field_of(x@, k) == field_of(y@, k),
        (x, y) => x == y,
    }
}

/// The privacy contract: nothing a payload carries in passing reaches the
/// event. Prompts, tool output, transcript paths, a `Write`'s content: two
/// payloads that differ only in such keys translate identically.
pub proof fn law_unread_keys_cannot_reach_the_event(
    a: Seq<(String, Json)>,
    b: Seq<(String, Json)>,
    ja: Json,
    jb: Json,
)
    requires
        agree_on_read_keys(a, b),
        ja matches Json::Object(x) && x@ == a,
        jb matches Json::Object(y) && y@ == b,
    ensures
        payload_of_json(ja) == payload_of_json(jb),
{
    assert(field_of(a, "hook_event_name"@) == field_of(b, "hook_event_name"@));
    assert(field_of(a, "session_id"@) == field_of(b, "session_id"@));
    assert(field_of(a, "agent_id"@) == field_of(b, "agent_id"@));
    assert(field_of(a, "tool_name"@) == field_of(b, "tool_name"@));
    assert(field_of(a, "notification_type"@) == field_of(b, "notification_type"@));
    assert(field_of(a, "error"@) == field_of(b, "error"@));
    assert(field_of(a, "error_type"@) == field_of(b, "error_type"@));
    assert(field_of(a, "is_interrupt"@) == field_of(b, "is_interrupt"@));
    assert(field_of(a, "source"@) == field_of(b, "source"@));
    assert(field_of(a, "how_started"@) == field_of(b, "how_started"@));
    match (field_of(a, "tool_input"@), field_of(b, "tool_input"@)) {
        (Some(Json::Object(x)), Some(Json::Object(y))) => {
            assert(field_of(x@, "file_path"@) == field_of(y@, "file_path"@));
            assert(field_of(x@, "notebook_path"@) == field_of(y@, "notebook_path"@));
            assert(field_of(x@, "command"@) == field_of(y@, "command"@));
            assert(field_of(x@, "pattern"@) == field_of(y@, "pattern"@));
            assert(field_of(x@, "url"@) == field_of(y@, "url"@));
            assert(field_of(x@, "description"@) == field_of(y@, "description"@));
            assert(field_of(x@, "path"@) == field_of(y@, "path"@));
            assert(tool_input_of(x@) == tool_input_of(y@));
        },
        _ => {},
    }
}

// ---------------------------------------------------------------------------
// The code.
// ---------------------------------------------------------------------------

/// The key a field is read from (its first name, where it has two).
pub open spec fn field_key(f: Field) -> Seq<char> {
    match f {
        Field::HookEventName => "hook_event_name"@,
        Field::SessionId => "session_id"@,
        Field::AgentId => "agent_id"@,
        Field::ToolName => "tool_name"@,
        Field::ToolInput => "tool_input"@,
        Field::NotificationType => "notification_type"@,
        Field::Error => "error"@,
        Field::IsInterrupt => "is_interrupt"@,
        Field::Source => "source"@,
    }
}

/// How a refused body is reported.
pub open spec fn error_message(e: HookError) -> Seq<char> {
    "not a hook payload: "@ + match e {
        HookError::NotJson => "not JSON"@,
        HookError::NotAnObject => "neither a JSON object nor an array"@,
        HookError::MissingField(f) => "missing field `"@ + field_key(f) + "`"@,
        HookError::WrongType(f) => "invalid type for `"@ + field_key(f) + "`"@,
        HookError::ExtraElements => "more elements than fields"@,
    }
}

impl Field {
    /// The key this field is read from.
    pub fn key(self) -> (r: &'static str)
        ensures
            r@ == field_key(self),
    {
        match self {
            Field::HookEventName => "hook_event_name",
            Field::SessionId => "session_id",
            Field::AgentId => "agent_id",
            Field::ToolName => "tool_name",
            Field::ToolInput => "tool_input",
            Field::NotificationType => "notification_type",
            Field::Error => "error",
            Field::IsInterrupt => "is_interrupt",
            Field::Source => "source",
        }
    }
}

impl HookError {
    /// A one-line description, for the listener's log.
    pub fn message(&self) -> (r: String)
        ensures
            r@ == error_message(*self),
    {
        let mut r = "not a hook payload: ".to_owned();
        match self {
            HookError::NotJson => r.append("not JSON"),
            HookError::NotAnObject => r.append("neither a JSON object nor an array"),
            HookError::MissingField(f) => {
                r.append("missing field `");
                r.append(f.key());
                r.append("`");
            },
            HookError::WrongType(f) => {
                r.append("invalid type for `");
                r.append(f.key());
                r.append("`");
            },
            HookError::ExtraElements => r.append("more elements than fields"),
        }
        r
    }
}

/// Parse a hook body and translate it.
///
/// `Ok(None)` means the payload was understood and is deliberately not an
/// event; `Err` means the bytes were not a hook payload. Keeping those apart
/// is what lets the listener count malformed input without also counting the
/// dozen events a turn that Clawd has no opinion about.
pub fn translate(body: &[u8]) -> (r: Result<Option<SessionEvent>, HookError>)
    ensures
        translation_result(r) == translation(body@),
{
    let document = match json::parse(body) {
        Some(j) => j,
        None => return Err(HookError::NotJson),
    };
    match HookPayload::from_json(&document) {
        Ok(payload) => Ok(payload.to_event()),
        Err(e) => Err(e),
    }
}

pub open spec fn text_result(r: Result<String, HookError>) -> Result<Seq<char>, HookError> {
    match r {
        Ok(s) => Ok(s@),
        Err(e) => Err(e),
    }
}

pub open spec fn opt_text_result(r: Result<Option<String>, HookError>) -> Result<
    Option<Seq<char>>,
    HookError,
> {
    match r {
        Ok(s) => Ok(opt_text(s)),
        Err(e) => Err(e),
    }
}

pub open spec fn input_result(r: Result<Option<ToolInput>, HookError>) -> Result<
    Option<ToolInputView>,
    HookError,
> {
    match r {
        Ok(Some(t)) => Ok(Some(t@)),
        Ok(None) => Ok(None),
        Err(e) => Err(e),
    }
}

fn required_text(v: Option<&Json>, f: Field) -> (r: Result<String, HookError>)
    ensures
        text_result(r) == required_text_of(opt_ref(v), f),
{
    match v {
        Some(Json::Text(s)) => Ok(s.clone()),
        Some(_) => Err(HookError::WrongType(f)),
        None => Err(HookError::MissingField(f)),
    }
}

fn optional_text(v: Option<&Json>, f: Field) -> (r: Result<Option<String>, HookError>)
    ensures
        opt_text_result(r) == optional_text_of(opt_ref(v), f),
{
    match v {
        Some(Json::Text(s)) => Ok(Some(s.clone())),
        Some(Json::Null) => Ok(None),
        Some(_) => Err(HookError::WrongType(f)),
        None => Ok(None),
    }
}

fn aliased_text(v: Option<&Json>, w: Option<&Json>, f: Field) -> (r: Result<
    Option<String>,
    HookError,
>)
    ensures
        opt_text_result(r) == aliased_text_of(opt_ref(v), opt_ref(w), f),
{
    match v {
        None => Ok(text_or_none(w)),
        Some(_) => optional_text(v, f),
    }
}

fn optional_bool(v: Option<&Json>, f: Field) -> (r: Result<Option<bool>, HookError>)
    ensures
        r == optional_bool_of(opt_ref(v), f),
{
    match v {
        Some(Json::Bool(b)) => Ok(Some(*b)),
        Some(Json::Null) => Ok(None),
        Some(_) => Err(HookError::WrongType(f)),
        None => Ok(None),
    }
}

fn text_or_none(v: Option<&Json>) -> (r: Option<String>)
    ensures
        opt_text(r) == text_of(opt_ref(v)),
{
    match v {
        Some(Json::Text(s)) => Some(s.clone()),
        _ => None,
    }
}

/// The `i`th element of an array of fields, if it has one.
fn element(items: &Vec<Json>, i: usize) -> (r: Option<&Json>)
    ensures
        opt_ref(r) == element_at(items@, i as int),
{
    if i < items.len() {
        Some(&items[i])
    } else {
        None
    }
}

fn optional_input(v: Option<&Json>) -> (r: Result<Option<ToolInput>, HookError>)
    ensures
        input_result(r) == optional_input_of(opt_ref(v)),
{
    match v {
        Some(Json::Object(fs)) => Ok(
            Some(
                ToolInput {
                    file_path: text_or_none(field(fs, "file_path")),
                    notebook_path: text_or_none(field(fs, "notebook_path")),
                    command: text_or_none(field(fs, "command")),
                    pattern: text_or_none(field(fs, "pattern")),
                    url: text_or_none(field(fs, "url")),
                    description: text_or_none(field(fs, "description")),
                    path: text_or_none(field(fs, "path")),
                },
            ),
        ),
        Some(Json::Array(items)) => {
            if items.len() > 7 {
                return Err(HookError::ExtraElements);
            }
            Ok(
                Some(
                    ToolInput {
                        file_path: text_or_none(element(items, 0)),
                        notebook_path: text_or_none(element(items, 1)),
                        command: text_or_none(element(items, 2)),
                        pattern: text_or_none(element(items, 3)),
                        url: text_or_none(element(items, 4)),
                        description: text_or_none(element(items, 5)),
                        path: text_or_none(element(items, 6)),
                    },
                ),
            )
        },
        Some(Json::Null) => Ok(None),
        Some(_) => Err(HookError::WrongType(Field::ToolInput)),
        None => Ok(None),
    }
}

/// The payload from its nine fields as read, or the first refusal.
fn assemble_payload(
    name: Result<String, HookError>,
    session: Result<String, HookError>,
    agent: Result<Option<String>, HookError>,
    tool: Result<Option<String>, HookError>,
    input: Result<Option<ToolInput>, HookError>,
    note: Result<Option<String>, HookError>,
    error: Result<Option<String>, HookError>,
    interrupt: Result<Option<bool>, HookError>,
    source: Result<Option<String>, HookError>,
) -> (r: Result<HookPayload, HookError>)
    ensures
        payload_result(r) == assemble(
            text_result(name),
            text_result(session),
            opt_text_result(agent),
            opt_text_result(tool),
            input_result(input),
            opt_text_result(note),
            opt_text_result(error),
            interrupt,
            opt_text_result(source),
        ),
{
    let hook_event_name = match name {
        Ok(v) => v,
        Err(e) => return Err(e),
    };
    let session_id = match session {
        Ok(v) => v,
        Err(e) => return Err(e),
    };
    let agent_id = match agent {
        Ok(v) => v,
        Err(e) => return Err(e),
    };
    let tool_name = match tool {
        Ok(v) => v,
        Err(e) => return Err(e),
    };
    let tool_input = match input {
        Ok(v) => v,
        Err(e) => return Err(e),
    };
    let notification_type = match note {
        Ok(v) => v,
        Err(e) => return Err(e),
    };
    let error = match error {
        Ok(v) => v,
        Err(e) => return Err(e),
    };
    let is_interrupt = match interrupt {
        Ok(v) => v,
        Err(e) => return Err(e),
    };
    let source = match source {
        Ok(v) => v,
        Err(e) => return Err(e),
    };
    Ok(
        HookPayload {
            hook_event_name,
            session_id,
            agent_id,
            tool_name,
            tool_input,
            notification_type,
            error,
            is_interrupt,
            source,
        },
    )
}

impl HookPayload {
    /// The payload a JSON document is, or why it is not one.
    pub fn from_json(document: &Json) -> (r: Result<HookPayload, HookError>)
        ensures
            payload_result(r) == payload_of_json(*document),
    {
        match document {
            Json::Object(fs) => assemble_payload(
                required_text(field(fs, "hook_event_name"), Field::HookEventName),
                required_text(field(fs, "session_id"), Field::SessionId),
                optional_text(field(fs, "agent_id"), Field::AgentId),
                optional_text(field(fs, "tool_name"), Field::ToolName),
                optional_input(field(fs, "tool_input")),
                optional_text(field(fs, "notification_type"), Field::NotificationType),
                aliased_text(field(fs, "error"), field(fs, "error_type"), Field::Error),
                optional_bool(field(fs, "is_interrupt"), Field::IsInterrupt),
                aliased_text(field(fs, "source"), field(fs, "how_started"), Field::Source),
            ),
            Json::Array(items) => {
                let r = assemble_payload(
                    required_text(element(items, 0), Field::HookEventName),
                    required_text(element(items, 1), Field::SessionId),
                    optional_text(element(items, 2), Field::AgentId),
                    optional_text(element(items, 3), Field::ToolName),
                    optional_input(element(items, 4)),
                    optional_text(element(items, 5), Field::NotificationType),
                    optional_text(element(items, 6), Field::Error),
                    optional_bool(element(items, 7), Field::IsInterrupt),
                    optional_text(element(items, 8), Field::Source),
                );
                match r {
                    Ok(p) => if items.len() > 9 {
                        Err(HookError::ExtraElements)
                    } else {
                        Ok(p)
                    },
                    Err(e) => Err(e),
                }
            },
            _ => Err(HookError::NotAnObject),
        }
    }

    /// The event this payload means, if it means one.
    pub fn to_event(&self) -> (r: Option<SessionEvent>)
        ensures
            match r {
                Some(e) => payload_event(self@) == Some(e@),
                None => payload_event(self@) is None,
            },
    {
        if self.agent_id.is_some() {
            return None;
        }
        match self.kind() {
            Some(kind) => Some(SessionEvent { session_id: self.session_id.clone(), kind }),
            None => None,
        }
    }

    fn kind(&self) -> (r: Option<EventKind>)
        ensures
            match r {
                Some(k) => payload_kind(self@) == Some(k@),
                None => payload_kind(self@) is None,
            },
    {
        let n = self.hook_event_name.as_str();
        if same_text(n, "SessionStart") {
            let from_compact = match &self.source {
                Some(s) => same_text(s.as_str(), "compact"),
                None => false,
            };
            if from_compact {
                None
            } else {
                Some(EventKind::SessionStarted)
            }
        } else if same_text(n, "UserPromptSubmit") {
            Some(EventKind::PromptSubmitted)
        } else if same_text(n, "PreToolUse") {
            let name = match &self.tool_name {
                Some(t) => t.clone(),
                None => "tool".to_owned(),
            };
            Some(EventKind::ToolStarted { name, target: self.target() })
        } else if same_text(n, "PostToolUse") {
            Some(EventKind::ToolFinished)
        } else if same_text(n, "PostToolUseFailure") {
            if self.is_interrupt == Some(true) {
                Some(EventKind::AttentionNeeded)
            } else {
                Some(EventKind::ToolFailed { kind: Some(FailureKind::ToolError) })
            }
        } else if same_text(n, "PermissionRequest") {
            let action = match &self.tool_name {
                Some(t) => permission_verb(t.as_str()),
                None => None,
            };
            Some(EventKind::PermissionRequested { action })
        } else if same_text(n, "Notification") {
            match &self.notification_type {
                Some(t) => if same_text(t.as_str(), "idle_prompt") || same_text(
                    t.as_str(),
                    "agent_needs_input",
                ) {
                    Some(EventKind::AttentionNeeded)
                } else {
                    None
                },
                None => None,
            }
        } else if same_text(n, "Stop") {
            Some(EventKind::TurnFinished { duration: None })
        } else if same_text(n, "StopFailure") {
            let reason = match &self.error {
                Some(e) => Some(e.as_str()),
                None => None,
            };
            Some(EventKind::TurnFailed { kind: failure_kind(reason) })
        } else if same_text(n, "PreCompact") {
            Some(EventKind::CompactStarted)
        } else if same_text(n, "PostCompact") {
            Some(EventKind::CompactFinished)
        } else if same_text(n, "SessionEnd") {
            Some(EventKind::SessionEnded)
        } else {
            None
        }
    }

    fn target(&self) -> (r: Option<String>)
        ensures
            opt_text(r) == payload_target(self@),
    {
        match &self.tool_input {
            Some(input) => match input.target() {
                Some(t) => Some(truncate(t)),
                None => None,
            },
            None => None,
        }
    }
}

fn pick(v: &Option<String>) -> (r: Option<&str>)
    ensures
        match r {
            Some(t) => picked(opt_text(*v)) == Some(t@),
            None => picked(opt_text(*v)) is None,
        },
{
    match v {
        Some(s) => {
            let t = trimmed(s.as_str());
            if t.unicode_len() > 0 {
                Some(t)
            } else {
                None
            }
        },
        None => None,
    }
}

impl ToolInput {
    /// The subject, most specific key first.
    fn target(&self) -> (r: Option<&str>)
        ensures
            match r {
                Some(t) => input_target(self@) == Some(t@),
                None => input_target(self@) is None,
            },
    {
        if let Some(t) = pick(&self.file_path) {
            return Some(t);
        }
        if let Some(t) = pick(&self.notebook_path) {
            return Some(t);
        }
        if let Some(t) = pick(&self.command) {
            return Some(t);
        }
        if let Some(t) = pick(&self.pattern) {
            return Some(t);
        }
        if let Some(t) = pick(&self.url) {
            return Some(t);
        }
        if let Some(t) = pick(&self.description) {
            return Some(t);
        }
        pick(&self.path)
    }
}

/// The verb the permission chip asks about.
fn permission_verb(tool: &str) -> (r: Option<String>)
    ensures
        opt_text(r) == verb_for_tool(tool@),
{
    if same_text(tool, "Edit") || same_text(tool, "Write") || same_text(tool, "MultiEdit")
        || same_text(tool, "NotebookEdit") {
        Some("edit".to_owned())
    } else if same_text(tool, "Read") || same_text(tool, "Glob") || same_text(tool, "Grep") {
        Some("read".to_owned())
    } else if same_text(tool, "Bash") || same_text(tool, "BashOutput") || same_text(
        tool,
        "KillShell",
    ) {
        Some("run".to_owned())
    } else if same_text(tool, "WebFetch") || same_text(tool, "WebSearch") {
        Some("web access".to_owned())
    } else if starts_with(tool, "mcp__") {
        Some("MCP access".to_owned())
    } else {
        None
    }
}

/// Why a turn failed, where the hook says.
fn failure_kind(error: Option<&str>) -> (r: Option<FailureKind>)
    ensures
        opt_failure_kind(r) == failure_for_reason(
            match error {
                Some(e) => Some(e@),
                None => None,
            },
        ),
{
    let e = match error {
        Some(e) => e,
        None => return None,
    };
    if same_text(e, "rate_limit") {
        Some(FailureKind::RateLimit)
    } else if same_text(e, "overloaded") {
        Some(FailureKind::Other("Overloaded".to_owned()))
    } else if same_text(e, "authentication_failed") || same_text(e, "cloud_credential_error") {
        Some(FailureKind::Other("Auth failed".to_owned()))
    } else if same_text(e, "oauth_org_not_allowed") || same_text(e, "account_on_hold")
        || same_text(e, "billing_error") {
        Some(FailureKind::Other("Account problem".to_owned()))
    } else if same_text(e, "invalid_request") || same_text(e, "model_not_found") {
        Some(FailureKind::Other("Request rejected".to_owned()))
    } else if same_text(e, "server_error") {
        Some(FailureKind::Other("Server error".to_owned()))
    } else if same_text(e, "max_output_tokens") {
        Some(FailureKind::Other("Output limit".to_owned()))
    } else {
        None
    }
}

/// Bound a target on a character boundary, never a byte one.
fn truncate(target: &str) -> (r: String)
    ensures
        r@ == first_chars(target@, MAX_TARGET as nat),
{
    first_n_chars(target, MAX_TARGET).to_owned()
}

} // verus!
