//! The texts that a monitor reports to the parent: progress lines, the
//! markdown summary of each way a child can end, and the notices sent when a
//! summary could not be handed to the parent's next turn.

use crate::events::{texts, TurnAbortReason};
use crate::text::{decimal, i64_to_decimal, signed_decimal, u64_to_decimal};
use vstd::prelude::*;
use vstd::string::*;

verus! {

/// Body of the summary of a child that completed without any message.
pub open spec fn no_message_text() -> Seq<char> {
    "Child agent completed without returning a message."@
}

/// What is added to the heading of a summary whose body was cut short.
pub open spec fn truncation_note() -> Seq<char> {
    " (output truncated to 5k tokens)"@
}

/// Heading of the summary of a child that completed.
pub open spec fn success_heading(agent_id: Seq<char>, note_truncation: bool) -> Seq<char> {
    "### Subagent `"@ + agent_id + "` ✅"@ + (if note_truncation {
        truncation_note()
    } else {
        Seq::<char>::empty()
    })
}

/// Summary of a child that completed: heading, blank line, body.
pub open spec fn success_summary(agent_id: Seq<char>, note_truncation: bool, body: Seq<char>) -> Seq<
    char,
> {
    success_heading(agent_id, note_truncation) + "\n\n"@ + body
}

/// Summary of a child that ended with an error.
pub open spec fn error_summary(agent_id: Seq<char>, message: Seq<char>) -> Seq<char> {
    "### Subagent `"@ + agent_id + "` ❌\n\n"@ + message
}

/// How the summary of an aborted child words the reason.
pub open spec fn abort_reason_text(reason: TurnAbortReason) -> Seq<char> {
    match reason {
        TurnAbortReason::Interrupted => "interrupted by user"@,
        TurnAbortReason::Replaced => "replaced by another task"@,
        TurnAbortReason::ReviewEnded => "review ended"@,
    }
}

/// Body of the summary of a child whose turn was aborted.
pub open spec fn abort_body(reason: TurnAbortReason) -> Seq<char> {
    "The subagent was "@ + abort_reason_text(reason) + "."@
}

/// Summary of a child whose turn was aborted: heading, blank line, body.
pub open spec fn abort_summary(agent_id: Seq<char>, reason: TurnAbortReason) -> Seq<char> {
    "### Subagent `"@ + agent_id + "` ⚠️\n\n"@ + abort_body(reason)
}

/// Notice for a completed child whose summary could not be injected.
pub open spec fn success_notice(agent_id: Seq<char>, body: Seq<char>) -> Seq<char> {
    "Subagent "@ + agent_id + " completed but results could not be injected. Results: "@ + body
}

/// Notice for a failed child whose summary could not be injected.
pub open spec fn error_notice(agent_id: Seq<char>, message: Seq<char>) -> Seq<char> {
    "Subagent "@ + agent_id + " failed: "@ + message
}

/// Notice for an aborted child whose summary could not be injected.
pub open spec fn abort_notice(agent_id: Seq<char>, reason: TurnAbortReason) -> Seq<char> {
    "Subagent "@ + agent_id + " aborted: "@ + abort_body(reason)
}

/// What a tool call returns when the child ended without an outcome.
pub open spec fn no_result_text(agent_id: Seq<char>) -> Seq<char> {
    "## Subagent `"@ + agent_id
        + "` did not report a result\n\nThe child agent terminated without a final outcome."@
}

/// Body of the summary of a completed child that left no final markdown on
/// its bridge: the accumulated output if there is any, else the last message
/// of the completion event, else the last whole message seen, else a fixed
/// text.
pub open spec fn fallback_body(
    accumulated: Seq<char>,
    completion_message: Option<Seq<char>>,
    last_message: Option<Seq<char>>,
) -> Seq<char> {
    if accumulated.len() > 0 {
        accumulated
    } else {
        match completion_message {
            Some(m) => m,
            None => match last_message {
                Some(m) => m,
                None => no_message_text(),
            },
        }
    }
}

/// Share of the context window that is left, in percent, rounded to the
/// nearest integer (halves up). An empty window has nothing left.
pub open spec fn percent_remaining(tokens_in_context: nat, window: nat) -> nat {
    if window == 0 {
        0
    } else {
        let used = if tokens_in_context < window {
            tokens_in_context
        } else {
            window
        };
        (((window - used) * 100 + window / 2) / window as int) as nat
    }
}

/// Progress line for the start of a command, given the rendering of the
/// command's words.
pub open spec fn exec_begin_text(command_text: Seq<char>, cwd: Seq<char>) -> Seq<char> {
    "exec: "@ + command_text + " in "@ + cwd
}

/// Progress line for the end of a command.
pub open spec fn exec_end_text(exit_code: int) -> Seq<char> {
    "exec: exit "@ + signed_decimal(exit_code)
}

/// Progress line for the start of a tool call.
pub open spec fn tool_begin_text(server: Seq<char>, tool: Seq<char>) -> Seq<char> {
    "tool: "@ + server + "."@ + tool
}

/// Progress line for the end of a tool call.
pub open spec fn tool_end_text(server: Seq<char>, tool: Seq<char>, success: bool) -> Seq<char> {
    "tool: "@ + server + "."@ + tool + " "@ + (if success {
        "ok"@
    } else {
        "failed"@
    })
}

/// Progress line for a token count with a known context window.
pub open spec fn context_left_text(tokens_in_context: nat, window: nat) -> Seq<char> {
    "context left: "@ + decimal(percent_remaining(tokens_in_context, window)) + "%"@
}

/// Whether `s` ends with `suffix`.
pub open spec fn ends_with(s: Seq<char>, suffix: Seq<char>) -> bool {
    s.len() >= suffix.len() && s.skip(s.len() - suffix.len()) == suffix
}

/// The heading of a completed child ends with the truncation note exactly
/// when the note was asked for.
pub proof fn lemma_heading_notes_truncation(agent_id: Seq<char>, note_truncation: bool)
    ensures
        ends_with(success_heading(agent_id, note_truncation), truncation_note())
            <==> note_truncation,
{
    reveal_strlit("` ✅");
    reveal_strlit(" (output truncated to 5k tokens)");
    let note = truncation_note();
    let plain = "### Subagent `"@ + agent_id + "` ✅"@;
    let heading = success_heading(agent_id, note_truncation);
    assert(note.len() == 32);
    assert(note[31] == ')');
    if note_truncation {
        assert(heading.skip(heading.len() - note.len()) =~= note);
    } else {
        assert(heading =~= plain);
        assert("` ✅"@.len() == 3);
        assert(plain[plain.len() - 1] == "` ✅"@[2]);
        if ends_with(heading, note) {
            assert(heading.skip(heading.len() - note.len())[31] == heading[heading.len() - 1]);
            assert(false);
        }
    }
}

/// The rendering that std's `Debug` gives to a list of strings.
pub uninterp spec fn debug_list_text(items: Seq<Seq<char>>) -> Seq<char>;

/// Renders `items` with `format!("{:?}", ..)`, std's `Debug` form of a list
/// of strings. The rendering is a function of the strings alone; the
/// contract gives it a name and claims nothing else of it.
#[verifier::external_body]
pub(crate) fn debug_list(items: &Vec<String>) -> (r: String)
    ensures
        r@ == debug_list_text(texts(items@)),
{
    format!("{:?}", items)
}

/// The words by which a summary names the reason of an abort.
pub fn abort_reason_words(reason: TurnAbortReason) -> (r: &'static str)
    ensures
        r@ == abort_reason_text(reason),
{
    match reason {
        TurnAbortReason::Interrupted => "interrupted by user",
        TurnAbortReason::Replaced => "replaced by another task",
        TurnAbortReason::ReviewEnded => "review ended",
    }
}

/// Summary of a child that completed.
pub fn build_success_summary(agent_id: &str, note_truncation: bool, body: &str) -> (r: String)
    ensures
        r@ == success_summary(agent_id@, note_truncation, body@),
{
    let heading = String::from_str("### Subagent `").concat(agent_id).concat("` ✅");
    let heading = if note_truncation {
        heading.concat(" (output truncated to 5k tokens)")
    } else {
        assert(heading@ + Seq::<char>::empty() =~= heading@);
        heading
    };
    heading.concat("\n\n").concat(body)
}

/// Summary of a child that ended with an error.
pub fn build_error_summary(agent_id: &str, message: &str) -> (r: String)
    ensures
        r@ == error_summary(agent_id@, message@),
{
    String::from_str("### Subagent `").concat(agent_id).concat("` ❌\n\n").concat(message)
}

/// Body of the summary of a child whose turn was aborted.
pub fn build_abort_body(reason: TurnAbortReason) -> (r: String)
    ensures
        r@ == abort_body(reason),
{
    String::from_str("The subagent was ").concat(abort_reason_words(reason)).concat(".")
}

/// Summary of a child whose turn was aborted.
pub fn build_abort_summary(agent_id: &str, reason: TurnAbortReason) -> (r: String)
    ensures
        r@ == abort_summary(agent_id@, reason),
{
    let body = build_abort_body(reason);
    String::from_str("### Subagent `").concat(agent_id).concat("` ⚠️\n\n").concat(body.as_str())
}

/// Notice for a completed child whose summary could not be injected.
pub fn build_success_notice(agent_id: &str, body: &str) -> (r: String)
    ensures
        r@ == success_notice(agent_id@, body@),
{
    String::from_str("Subagent ").concat(agent_id).concat(
        " completed but results could not be injected. Results: ",
    ).concat(body)
}

/// Notice for a failed child whose summary could not be injected.
pub fn build_error_notice(agent_id: &str, message: &str) -> (r: String)
    ensures
        r@ == error_notice(agent_id@, message@),
{
    String::from_str("Subagent ").concat(agent_id).concat(" failed: ").concat(message)
}

/// Notice for an aborted child whose summary could not be injected.
pub fn build_abort_notice(agent_id: &str, reason: TurnAbortReason) -> (r: String)
    ensures
        r@ == abort_notice(agent_id@, reason),
{
    let body = build_abort_body(reason);
    String::from_str("Subagent ").concat(agent_id).concat(" aborted: ").concat(body.as_str())
}

/// What a tool call returns when the child ended without an outcome.
pub fn build_no_result_text(agent_id: &str) -> (r: String)
    ensures
        r@ == no_result_text(agent_id@),
{
    String::from_str("## Subagent `").concat(agent_id).concat(
        "` did not report a result\n\nThe child agent terminated without a final outcome.",
    )
}

/// Share of the context window that is left, in percent.
pub fn context_percent_remaining(tokens_in_context: u64, window: u64) -> (pct: u8)
    ensures
        pct == percent_remaining(tokens_in_context as nat, window as nat),
        pct <= 100,
{
    if window == 0 {
        0
    } else {
        let used: u64 = if tokens_in_context < window {
            tokens_in_context
        } else {
            window
        };
        let left: u128 = (window - used) as u128;
        let scaled: u128 = left * 100 + (window / 2) as u128;
        let pct: u128 = scaled / (window as u128);
        assert(pct <= 100) by (nonlinear_arith)
            requires
                pct == scaled / (window as u128),
                scaled <= (window as u128) * 100 + (window as u128) / 2,
                window > 0,
        ;
        pct as u8
    }
}

/// Progress line for the start of a command, given the rendering of the
/// command's words.
pub fn exec_begin_progress(command_text: &str, cwd: &str) -> (r: String)
    ensures
        r@ == exec_begin_text(command_text@, cwd@),
{
    String::from_str("exec: ").concat(command_text).concat(" in ").concat(cwd)
}

/// Progress line for the end of a command.
pub fn exec_end_progress(exit_code: i32) -> (r: String)
    ensures
        r@ == exec_end_text(exit_code as int),
{
    let code = i64_to_decimal(exit_code as i64);
    String::from_str("exec: exit ").concat(code.as_str())
}

/// Progress line for the start of a tool call.
pub fn tool_begin_progress(server: &str, tool: &str) -> (r: String)
    ensures
        r@ == tool_begin_text(server@, tool@),
{
    String::from_str("tool: ").concat(server).concat(".").concat(tool)
}

/// Progress line for the end of a tool call.
pub fn tool_end_progress(server: &str, tool: &str, success: bool) -> (r: String)
    ensures
        r@ == tool_end_text(server@, tool@, success),
{
    let outcome = if success {
        "ok"
    } else {
        "failed"
    };
    String::from_str("tool: ").concat(server).concat(".").concat(tool).concat(" ").concat(outcome)
}

/// Progress line for a token count with a known context window.
pub fn context_left_progress(tokens_in_context: u64, window: u64) -> (r: String)
    ensures
        r@ == context_left_text(tokens_in_context as nat, window as nat),
{
    let pct = context_percent_remaining(tokens_in_context, window);
    let digits = u64_to_decimal(pct as u64);
    String::from_str("context left: ").concat(digits.as_str()).concat("%")
}

} // verus!
