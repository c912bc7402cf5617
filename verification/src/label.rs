//! Label text derivation.
//!
//! Everything here comes from data an event actually carries. Progress
//! percentages and test-result counts are not derivable and are not
//! attempted: obtaining either means pattern-matching on tool output.

use vstd::prelude::*;

use crate::event::{
    EventKind, EventKindView, FailureKind, FailureKindView, failure_phrase, opt_failure,
};
use crate::text::{
    basename, basename_of, decimal, decimal_text, digit_char, first_n_chars, lemma_basename_lacks,
    lemma_concat_lacks, lemma_decimal_digits, lemma_take_lacks, lemma_trim_end_lacks,
    lemma_trim_end_len, same_text, trim_end, trimmed_end,
};
use crate::time::Duration;

verus! {

/// Longest a label may be, in characters.
///
/// The chip is one line in a window 2.75 sprites wide. A Bash command can be
/// an entire command line, and an uncapped one is clipped at both ends with
/// no ellipsis to say so.
pub const MAX_CHARS: usize = 30;

pub const READY: &'static str = "Ready";

pub const THINKING: &'static str = "Thinking…";

pub const YOUR_TURN: &'static str = "Your turn";

pub const COMPACTING: &'static str = "Compacting…";

pub const PAUSED: &'static str = "Paused";

/// The watchdog's wording. A session that went quiet mid-work is a different
/// thing from one that ended cleanly, even though both render as `Paused`.
pub const STALLED: &'static str = "Session stalled";

/// A label capped at `MAX_CHARS`: cut to one character short, trailing white
/// space dropped, and an ellipsis added so the reader can see it was cut.
pub open spec fn cap(t: Seq<char>) -> Seq<char> {
    if t.len() <= MAX_CHARS {
        t
    } else {
        trim_end(t.take(MAX_CHARS - 1)) + "…"@
    }
}

pub open spec fn is_edit_tool(name: Seq<char>) -> bool {
    name == "Edit"@ || name == "Write"@ || name == "NotebookEdit"@ || name == "MultiEdit"@
}

pub open spec fn is_search_tool(name: Seq<char>) -> bool {
    name == "Grep"@ || name == "Glob"@
}

pub open spec fn is_web_tool(name: Seq<char>) -> bool {
    name == "WebFetch"@ || name == "WebSearch"@
}

/// Tool name plus its target: `Editing App.tsx`, `Running npm test`.
pub open spec fn tool_label(name: Seq<char>, target: Option<Seq<char>>) -> Seq<char> {
    match target {
        Some(t) => {
            if is_edit_tool(name) {
                "Editing "@ + basename(t)
            } else if name == "Read"@ {
                "Reading "@ + basename(t)
            } else if name == "Bash"@ {
                "Running "@ + t
            } else if is_search_tool(name) {
                "Searching"@
            } else if is_web_tool(name) {
                "Searching the web"@
            } else {
                name + " "@ + basename(t)
            }
        },
        None => {
            if is_search_tool(name) {
                "Searching"@
            } else if is_web_tool(name) {
                "Searching the web"@
            } else {
                "Running "@ + name
            }
        },
    }
}

/// Two digits, zero-padded, for a number under a hundred.
pub open spec fn two_digits(n: nat) -> Seq<char> {
    seq![digit_char(n / 10), digit_char(n % 10)]
}

/// `42s`, `3m 05s`: whole seconds, because this is a glanceable chip.
pub open spec fn humanise(secs: nat) -> Seq<char> {
    if secs < 60 {
        decimal(secs) + "s"@
    } else {
        decimal(secs / 60) + "m "@ + two_digits(secs % 60) + "s"@
    }
}

pub open spec fn failure_label(kind: Option<FailureKindView>, fallback: Seq<char>) -> Seq<char> {
    match kind {
        Some(k) => failure_phrase(k),
        None => fallback,
    }
}

/// The label an event reads as, before the cap.
pub open spec fn raw_label(kind: EventKindView) -> Seq<char> {
    match kind {
        EventKindView::SessionStarted => READY@,
        EventKindView::PromptSubmitted => THINKING@,
        EventKindView::ToolStarted { name, target } => tool_label(name, target),
        EventKindView::ToolFinished => THINKING@,
        EventKindView::ToolFailed { kind } => failure_label(kind, "Tool failed"@),
        EventKindView::PermissionRequested { action } => match action {
            Some(a) => "Allow "@ + a + "?"@,
            None => "Permission needed"@,
        },
        EventKindView::AttentionNeeded => YOUR_TURN@,
        EventKindView::TurnFinished { duration } => match duration {
            Some(ms) => "Done in "@ + humanise(ms / 1000),
            None => "Done"@,
        },
        EventKindView::TurnFailed { kind } => failure_label(kind, "Turn failed"@),
        EventKindView::CompactStarted => COMPACTING@,
        EventKindView::CompactFinished => THINKING@,
        EventKindView::SessionEnded => PAUSED@,
    }
}

/// The label an accepted event puts on the chip.
pub open spec fn label_for(kind: EventKindView) -> Seq<char> {
    cap(raw_label(kind))
}

/// Whatever the text, the capped label fits the chip.
pub proof fn lemma_cap_fits(t: Seq<char>)
    ensures
        cap(t).len() <= MAX_CHARS,
        t.len() <= MAX_CHARS ==> cap(t) == t,
{
    if t.len() > MAX_CHARS {
        reveal_strlit("…");
        lemma_trim_end_len(t.take(MAX_CHARS - 1));
    }
}

/// No event, whatever it carries, produces a label wider than the chip.
pub proof fn law_every_label_fits_the_chip(kind: EventKindView)
    ensures
        label_for(kind).len() <= MAX_CHARS,
{
    lemma_cap_fits(raw_label(kind));
}

/// Whether any text the event carries (a tool name or target, a permission
/// verb, a failure's own wording) holds the character `c`.
pub open spec fn carries(kind: EventKindView, c: char) -> bool {
    match kind {
        EventKindView::ToolStarted { name, target } => name.contains(c) || (target matches Some(
            t,
        ) && t.contains(c)),
        EventKindView::PermissionRequested { action } => action matches Some(a) && a.contains(c),
        EventKindView::ToolFailed { kind } | EventKindView::TurnFailed { kind } => kind matches Some(
            FailureKindView::Other(d),
        ) && d.contains(c),
        _ => false,
    }
}

proof fn lemma_wording_has_no_percent()
    ensures
        !READY@.contains('%'),
        !THINKING@.contains('%'),
        !YOUR_TURN@.contains('%'),
        !COMPACTING@.contains('%'),
        !PAUSED@.contains('%'),
        !"Editing "@.contains('%'),
        !"Reading "@.contains('%'),
        !"Running "@.contains('%'),
        !"Searching"@.contains('%'),
        !"Searching the web"@.contains('%'),
        !" "@.contains('%'),
        !"Allow "@.contains('%'),
        !"?"@.contains('%'),
        !"Permission needed"@.contains('%'),
        !"Done in "@.contains('%'),
        !"Done"@.contains('%'),
        !"s"@.contains('%'),
        !"m "@.contains('%'),
        !"Tool failed"@.contains('%'),
        !"Turn failed"@.contains('%'),
        !"Rate limited"@.contains('%'),
        !"Timed out"@.contains('%'),
        !"Cancelled"@.contains('%'),
        !"…"@.contains('%'),
{
    reveal_strlit("Ready");
    reveal_strlit("Thinking…");
    reveal_strlit("Your turn");
    reveal_strlit("Compacting…");
    reveal_strlit("Paused");
    reveal_strlit("Editing ");
    reveal_strlit("Reading ");
    reveal_strlit("Running ");
    reveal_strlit("Searching");
    reveal_strlit("Searching the web");
    reveal_strlit(" ");
    reveal_strlit("Allow ");
    reveal_strlit("?");
    reveal_strlit("Permission needed");
    reveal_strlit("Done in ");
    reveal_strlit("Done");
    reveal_strlit("s");
    reveal_strlit("m ");
    reveal_strlit("Tool failed");
    reveal_strlit("Turn failed");
    reveal_strlit("Rate limited");
    reveal_strlit("Timed out");
    reveal_strlit("Cancelled");
    reveal_strlit("…");
}

/// A numeral for a duration holds no percent sign.
proof fn lemma_humanise_has_no_percent(secs: nat)
    ensures
        !humanise(secs).contains('%'),
{
    lemma_wording_has_no_percent();
    if secs < 60 {
        lemma_decimal_digits(secs);
        lemma_concat_lacks(decimal(secs), "s"@, '%');
    } else {
        lemma_decimal_digits(secs / 60);
        lemma_concat_lacks(decimal(secs / 60), "m "@, '%');
        lemma_concat_lacks(decimal(secs / 60) + "m "@, two_digits(secs % 60), '%');
        lemma_concat_lacks(decimal(secs / 60) + "m "@ + two_digits(secs % 60), "s"@, '%');
    }
}

/// No label can claim progress it does not have: nothing in the wording is a
/// percentage, so a `%` on the chip can only be one the event itself carried
/// (a command line that mentions one, say).
pub proof fn law_labels_invent_no_percentage(kind: EventKindView)
    ensures
        label_for(kind).contains('%') ==> carries(kind, '%'),
{
    lemma_wording_has_no_percent();
    if !carries(kind, '%') {
        let raw = raw_label(kind);
        match kind {
            EventKindView::ToolStarted { name, target } => {
                match target {
                    Some(t) => {
                        lemma_basename_lacks(t, '%');
                        lemma_concat_lacks("Editing "@, basename(t), '%');
                        lemma_concat_lacks("Reading "@, basename(t), '%');
                        lemma_concat_lacks("Running "@, t, '%');
                        lemma_concat_lacks(name, " "@, '%');
                        lemma_concat_lacks(name + " "@, basename(t), '%');
                    },
                    None => {
                        lemma_concat_lacks("Running "@, name, '%');
                    },
                }
            },
            EventKindView::PermissionRequested { action } => {
                if let Some(a) = action {
                    lemma_concat_lacks("Allow "@, a, '%');
                    lemma_concat_lacks("Allow "@ + a, "?"@, '%');
                }
            },
            EventKindView::TurnFinished { duration } => {
                if let Some(ms) = duration {
                    lemma_humanise_has_no_percent(ms / 1000);
                    lemma_concat_lacks("Done in "@, humanise(ms / 1000), '%');
                }
            },
            _ => {},
        }
        assert(!raw.contains('%'));
        if raw.len() > MAX_CHARS {
            lemma_take_lacks(raw, MAX_CHARS - 1, '%');
            lemma_trim_end_lacks(raw.take(MAX_CHARS - 1), '%');
            lemma_concat_lacks(trim_end(raw.take(MAX_CHARS - 1)), "…"@, '%');
        }
    }
}

/// Every editing tool reads as "Editing" and the file's name, and reading and
/// running read as such: `Edit`, `Write`, `NotebookEdit` and `MultiEdit` on
/// a file give `Editing App.tsx`, `Read` gives `Reading App.tsx`, and `Bash`
/// gives `Running` and the whole command, each capped to the chip.
pub proof fn law_tool_labels_name_what_the_tool_does(name: Seq<char>, target: Seq<char>)
    ensures
        (name == "Edit"@ || name == "Write"@ || name == "NotebookEdit"@ || name == "MultiEdit"@)
            ==> label_for(EventKindView::ToolStarted { name, target: Some(target) }) == cap(
            "Editing "@ + basename(target),
        ),
        name == "Read"@ ==> label_for(EventKindView::ToolStarted { name, target: Some(target) })
            == cap("Reading "@ + basename(target)),
        name == "Bash"@ ==> label_for(EventKindView::ToolStarted { name, target: Some(target) })
            == cap("Running "@ + target),
{
    reveal_strlit("Edit");
    reveal_strlit("Write");
    reveal_strlit("NotebookEdit");
    reveal_strlit("MultiEdit");
    reveal_strlit("Read");
    reveal_strlit("Bash");
    if name == "Read"@ || name == "Bash"@ {
        assert(name != "Edit"@) by {
            assert(name[0] != "Edit"@[0]);
        }
        assert(name.len() != "Write"@.len());
        assert(name.len() != "NotebookEdit"@.len());
        assert(name.len() != "MultiEdit"@.len());
    }
    if name == "Bash"@ {
        assert(name != "Read"@) by {
            assert(name[0] != "Read"@[0]);
        }
    }
}

/// Label for an event that has just been accepted.
pub fn for_event(kind: &EventKind) -> (r: String)
    ensures
        r@ == label_for(kind@),
        r@.len() <= MAX_CHARS,
{
    proof {
        law_every_label_fits_the_chip(kind@);
    }
    truncate(raw_for_event(kind))
}

/// Cap a label to `MAX_CHARS`, ending it with an ellipsis so the reader can
/// see it was cut. Splits on a character boundary, never a byte one.
fn truncate(text: String) -> (r: String)
    ensures
        r@ == cap(text@),
{
    let s = text.as_str();
    if s.unicode_len() <= MAX_CHARS {
        return text;
    }
    let kept = first_n_chars(s, MAX_CHARS - 1);
    let mut r = trimmed_end(kept).to_owned();
    r.append("…");
    r
}

fn raw_for_event(kind: &EventKind) -> (r: String)
    ensures
        r@ == raw_label(kind@),
{
    match kind {
        EventKind::SessionStarted => READY.to_owned(),
        EventKind::PromptSubmitted => THINKING.to_owned(),
        EventKind::ToolStarted { name, target } => {
            let t = match target {
                Some(t) => Some(t.as_str()),
                None => None,
            };
            for_tool(name.as_str(), t)
        },
        EventKind::ToolFinished => THINKING.to_owned(),
        EventKind::ToolFailed { kind } => failure(kind, "Tool failed"),
        EventKind::PermissionRequested { action } => match action {
            Some(action) => {
                let mut r = "Allow ".to_owned();
                r.append(action.as_str());
                r.append("?");
                r
            },
            None => "Permission needed".to_owned(),
        },
        EventKind::AttentionNeeded => YOUR_TURN.to_owned(),
        EventKind::TurnFinished { duration } => match duration {
            Some(d) => {
                let mut r = "Done in ".to_owned();
                let h = humanise_secs(d.as_secs());
                r.append(h.as_str());
                r
            },
            None => "Done".to_owned(),
        },
        EventKind::TurnFailed { kind } => failure(kind, "Turn failed"),
        EventKind::CompactStarted => COMPACTING.to_owned(),
        EventKind::CompactFinished => THINKING.to_owned(),
        EventKind::SessionEnded => PAUSED.to_owned(),
    }
}

/// Tool name plus its target, as `Editing App.tsx` or `Running npm test`.
fn for_tool(name: &str, target: Option<&str>) -> (r: String)
    ensures
        r@ == tool_label(
            name@,
            match target {
                Some(t) => Some(t@),
                None => None,
            },
        ),
{
    let edit = same_text(name, "Edit") || same_text(name, "Write") || same_text(
        name,
        "NotebookEdit",
    ) || same_text(name, "MultiEdit");
    let search = same_text(name, "Grep") || same_text(name, "Glob");
    let web = same_text(name, "WebFetch") || same_text(name, "WebSearch");
    match target {
        Some(t) => {
            if edit {
                let mut r = "Editing ".to_owned();
                r.append(basename_of(t));
                r
            } else if same_text(name, "Read") {
                let mut r = "Reading ".to_owned();
                r.append(basename_of(t));
                r
            } else if same_text(name, "Bash") {
                // Bash carries a command rather than a path, so it is used whole.
                let mut r = "Running ".to_owned();
                r.append(t);
                r
            } else if search {
                "Searching".to_owned()
            } else if web {
                "Searching the web".to_owned()
            } else {
                let mut r = name.to_owned();
                r.append(" ");
                r.append(basename_of(t));
                r
            }
        },
        None => {
            if search {
                "Searching".to_owned()
            } else if web {
                "Searching the web".to_owned()
            } else {
                let mut r = "Running ".to_owned();
                r.append(name);
                r
            }
        },
    }
}

fn failure(kind: &Option<FailureKind>, fallback: &str) -> (r: String)
    ensures
        r@ == failure_label(opt_failure(*kind), fallback@),
{
    match kind {
        Some(kind) => kind.describe().to_owned(),
        None => fallback.to_owned(),
    }
}

/// `42s`, `3m 05s`.
fn humanise_secs(secs: u64) -> (r: String)
    ensures
        r@ == humanise(secs as nat),
{
    if secs < 60 {
        let mut r = decimal_text(secs);
        r.append("s");
        r
    } else {
        let mut r = decimal_text(secs / 60);
        r.append("m ");
        let rem = secs % 60;
        let mut pad = decimal_text(rem / 10);
        let ones = decimal_text(rem % 10);
        pad.append(ones.as_str());
        proof {
            assert(decimal((rem / 10) as nat) == seq![digit_char((rem / 10) as nat)]);
            assert(decimal((rem % 10) as nat) == seq![digit_char((rem % 10) as nat)]);
            assert(pad@ =~= two_digits(rem as nat));
        }
        r.append(pad.as_str());
        r.append("s");
        r
    }
}

} // verus!
