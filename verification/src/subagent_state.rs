//! What a front end keeps of a running child agent: the text that streams
//! in, the share of its context that is left, and a short status line.

use crate::events::{option_text, texts, Event, EventMsg, EventMsgView, TurnAbortReason};
use crate::summary::{context_percent_remaining, percent_remaining};
use crate::text::{
    decimal, i64_to_decimal, lines_of, signed_decimal, split_lines, take_chars, u64_to_decimal,
};
use crate::trim::{is_blank, trim, trim_end, trimmed, trimmed_end};
use vstd::prelude::*;
use vstd::string::*;

verus! {

/// Longest status line, in characters.
pub const STATUS_WIDTH: u64 = 80;

/// Longest preview of a command, in characters.
pub const COMMAND_PREVIEW_WIDTH: u64 = 60;

/// The words of a command joined as a shell would read them back, or none
/// where a word cannot be quoted.
pub uninterp spec fn shell_joined(words: Seq<Seq<char>>) -> Option<Seq<char>>;

/// Whether a word holds a nul character.
pub open spec fn has_nul(words: Seq<Seq<char>>) -> bool {
    exists|i: int, j: int| 0 <= i < words.len() && 0 <= j < words[i].len() && words[i][j] == '\0'
}

/// Joins the words of a command with `shlex::try_join`, which quotes each
/// word as a shell needs it and puts single spaces between them. The joined
/// text is a function of the words alone; the contract gives it a name.
/// The crate documents one error only, for a word that holds a nul
/// character: the contract claims that there is a result exactly when no
/// word holds one.
#[verifier::external_body]
pub(crate) fn shell_join(words: &Vec<String>) -> (r: Option<String>)
    ensures
        option_text(r) == shell_joined(texts(words@)),
        r is None <==> has_nul(texts(words@)),
{
    shlex::try_join(words.iter().map(String::as_str)).ok()
}

/// The words joined by single spaces.
pub open spec fn space_joined(words: Seq<Seq<char>>) -> Seq<char>
    decreases words.len(),
{
    if words.len() == 0 {
        Seq::<char>::empty()
    } else if words.len() == 1 {
        words[0]
    } else {
        space_joined(words.drop_last()) + seq![' '] + words.last()
    }
}

/// `s` cut to `width` characters, with an ellipsis after them if more were
/// there.
pub open spec fn shortened(s: Seq<char>, width: nat) -> Seq<char> {
    if s.len() > width {
        s.take(width as int).push('…')
    } else {
        s
    }
}

/// The preview of a command, given its words joined for a shell, if they
/// could be: the joined text, or the words joined by spaces, cut to
/// `COMMAND_PREVIEW_WIDTH` characters.
pub open spec fn command_preview(joined: Option<Seq<char>>, words: Seq<Seq<char>>) -> Seq<char> {
    shortened(
        match joined {
            Some(text) => text,
            None => space_joined(words),
        },
        COMMAND_PREVIEW_WIDTH as nat,
    )
}

/// The first line of `s`, or `s` itself if it has no line.
pub open spec fn first_line(s: Seq<char>) -> Seq<char> {
    if lines_of(s).len() > 0 {
        lines_of(s)[0]
    } else {
        s
    }
}

/// The status line for a text: the first line of the text without the
/// white space around it, cut to `STATUS_WIDTH` characters. A blank text
/// gives none.
pub open spec fn status_of(text: Seq<char>) -> Option<Seq<char>> {
    if trim(text).len() == 0 {
        None
    } else {
        Some(shortened(first_line(trim(text)), STATUS_WIDTH as nat))
    }
}

/// How a status line names the reason of an abort.
pub open spec fn reason_name(reason: TurnAbortReason) -> Seq<char> {
    match reason {
        TurnAbortReason::Interrupted => "Interrupted"@,
        TurnAbortReason::Replaced => "Replaced"@,
        TurnAbortReason::ReviewEnded => "ReviewEnded"@,
    }
}

/// What a front end shows for a child agent.
#[derive(Debug, Clone)]
pub enum SubAgentCell {
    /// A message of the agent, as markdown.
    Message { text: String },
    /// A summary of the reasoning of the agent.
    ReasoningSummary { text: String },
    /// An error.
    Error { message: String },
    /// The lines that close the transcript of the agent.
    Footer { lines: Vec<String> },
}

/// Abstract value of a [`SubAgentCell`].
pub enum CellView {
    Message { text: Seq<char> },
    ReasoningSummary { text: Seq<char> },
    Error { message: Seq<char> },
    Footer { lines: Seq<Seq<char>> },
}

impl View for SubAgentCell {
    type V = CellView;

    open spec fn view(&self) -> CellView {
        match self {
            SubAgentCell::Message { text } => CellView::Message { text: text@ },
            SubAgentCell::ReasoningSummary { text } => CellView::ReasoningSummary { text: text@ },
            SubAgentCell::Error { message } => CellView::Error { message: message@ },
            SubAgentCell::Footer { lines } => CellView::Footer { lines: texts(lines@) },
        }
    }
}

/// The abstract values of a list of cells.
pub open spec fn cell_views(cells: Seq<SubAgentCell>) -> Seq<CellView> {
    Seq::new(cells.len(), |i: int| cells[i]@)
}

/// Abstract value of a [`SubAgentState`].
pub struct SubAgentView {
    pub message_buffer: Seq<char>,
    pub reasoning_buffer: Seq<char>,
    pub full_reasoning_buffer: Seq<char>,
    pub context_percent: Option<u8>,
    pub last_status: Option<Seq<char>>,
}

/// A state together with the cells that a step gave rise to.
pub struct SubAgentStep {
    pub state: SubAgentView,
    pub cells: Seq<CellView>,
}

impl SubAgentView {
    /// The state after a status was recorded: a blank text leaves the
    /// status as it was.
    pub open spec fn record_status(self, text: Seq<char>) -> SubAgentView {
        match status_of(text) {
            Some(status) => SubAgentView { last_status: Some(status), ..self },
            None => self,
        }
    }

    /// Flushes the message that has streamed in, or `message` in its place
    /// if there is one: a message that is not blank becomes a cell and the
    /// status; the buffer is emptied either way.
    pub open spec fn flush_message(self, message: Option<Seq<char>>) -> SubAgentStep {
        let buffer = match message {
            Some(m) => m,
            None => self.message_buffer,
        };
        let cleared = SubAgentView { message_buffer: Seq::<char>::empty(), ..self };
        if trim(buffer).len() == 0 {
            SubAgentStep { state: cleared, cells: Seq::<CellView>::empty() }
        } else {
            SubAgentStep {
                state: cleared.record_status(trim(buffer)),
                cells: seq![CellView::Message { text: trim(buffer) }],
            }
        }
    }

    /// The reasoning gathered so far with the current section added to it,
    /// two line feeds between them where both are there.
    pub open spec fn gathered_reasoning(self, join_needs_both: bool) -> Seq<char> {
        (if self.full_reasoning_buffer.len() > 0 && (!join_needs_both
            || self.reasoning_buffer.len() > 0) {
            self.full_reasoning_buffer + "\n\n"@
        } else {
            self.full_reasoning_buffer
        }) + trim_end(self.reasoning_buffer)
    }

    /// Flushes the reasoning that has streamed in: unless all of it is
    /// blank it becomes a cell, and the status says so; the buffers are
    /// emptied either way.
    pub open spec fn flush_reasoning(self) -> SubAgentStep {
        let cleared = SubAgentView {
            reasoning_buffer: Seq::<char>::empty(),
            full_reasoning_buffer: Seq::<char>::empty(),
            ..self
        };
        if trim(self.reasoning_buffer).len() == 0 && trim(self.full_reasoning_buffer).len() == 0 {
            SubAgentStep { state: cleared, cells: Seq::<CellView>::empty() }
        } else if trim(self.gathered_reasoning(true)).len() > 0 {
            SubAgentStep {
                state: cleared.record_status("reasoned"@),
                cells: seq![
                    CellView::ReasoningSummary { text: trim(self.gathered_reasoning(true)) },
                ],
            }
        } else {
            SubAgentStep { state: cleared, cells: Seq::<CellView>::empty() }
        }
    }

    /// Ends a section of the reasoning: unless it is blank the section is
    /// added to what was gathered; the section buffer is emptied either way.
    pub open spec fn reasoning_section_break(self) -> SubAgentView {
        if trim(self.reasoning_buffer).len() == 0 {
            SubAgentView { reasoning_buffer: Seq::<char>::empty(), ..self }
        } else {
            SubAgentView {
                full_reasoning_buffer: self.gathered_reasoning(false),
                reasoning_buffer: Seq::<char>::empty(),
                ..self
            }
        }
    }

    /// Flushes the message and then the reasoning.
    pub open spec fn flush_all(self, message: Option<Seq<char>>) -> SubAgentStep {
        let first = self.flush_message(message);
        let second = first.state.flush_reasoning();
        SubAgentStep { state: second.state, cells: first.cells + second.cells }
    }

    /// What an event of the child does to the state, and the cells it
    /// gives rise to. `joined_command` is the command of the event joined
    /// for a shell, where the event starts a command and its words can be
    /// joined.
    pub open spec fn handle_event(self, msg: EventMsgView, joined_command: Option<Seq<char>>)
        -> SubAgentStep {
        let quiet = |state: SubAgentView| SubAgentStep { state, cells: Seq::<CellView>::empty() };
        match msg {
            EventMsgView::TaskStarted => quiet(self.record_status("started"@)),
            EventMsgView::AgentMessageDelta { delta } => quiet(
                SubAgentView { message_buffer: self.message_buffer + delta, ..self },
            ),
            EventMsgView::AgentMessage { message } => quiet(
                SubAgentView { message_buffer: Seq::<char>::empty(), ..self }.record_status(
                    "responded"@,
                ),
            ),
            EventMsgView::AgentReasoningDelta { delta } => quiet(
                SubAgentView { reasoning_buffer: self.reasoning_buffer + delta, ..self },
            ),
            EventMsgView::AgentReasoningRawContentDelta { delta } => quiet(
                SubAgentView { reasoning_buffer: self.reasoning_buffer + delta, ..self },
            ),
            EventMsgView::AgentReasoning { text } => quiet(
                SubAgentView {
                    reasoning_buffer: Seq::<char>::empty(),
                    full_reasoning_buffer: Seq::<char>::empty(),
                    ..self
                }.record_status("reasoning"@),
            ),
            EventMsgView::AgentReasoningRawContent { text } => quiet(
                SubAgentView {
                    reasoning_buffer: Seq::<char>::empty(),
                    full_reasoning_buffer: Seq::<char>::empty(),
                    ..self
                }.record_status("reasoning"@),
            ),
            EventMsgView::AgentReasoningSectionBreak => quiet(self.reasoning_section_break()),
            EventMsgView::ExecCommandBegin { command, cwd } => quiet(
                self.record_status("exec "@ + command_preview(joined_command, command)),
            ),
            EventMsgView::ExecCommandEnd { exit_code } => quiet(
                self.record_status("exec exit "@ + signed_decimal(exit_code)),
            ),
            EventMsgView::McpToolCallBegin { server, tool } => quiet(
                self.record_status("tool "@ + server + "."@ + tool),
            ),
            EventMsgView::McpToolCallEnd { server, tool, success } => quiet(
                self.record_status(
                    "tool "@ + server + "."@ + tool + " "@ + (if success {
                        "ok"@
                    } else {
                        "failed"@
                    }),
                ),
            ),
            EventMsgView::ViewImageToolCall => quiet(self.record_status("viewed image"@)),
            EventMsgView::WebSearchBegin => quiet(self.record_status("searching…"@)),
            EventMsgView::WebSearchEnd { query } => quiet(
                self.record_status("search \""@ + query + "\""@),
            ),
            EventMsgView::TokenCount { tokens_in_context, model_context_window } => {
                match model_context_window {
                    Some(window) => quiet(
                        SubAgentView {
                            context_percent: Some(
                                percent_remaining(tokens_in_context, window) as u8,
                            ),
                            ..self
                        },
                    ),
                    None => quiet(self),
                }
            },
            EventMsgView::StreamError { message } => quiet(
                self.record_status("stream error: "@ + message),
            ),
            EventMsgView::BackgroundEvent { message } => quiet(self.record_status(message)),
            EventMsgView::TaskComplete { last_agent_message } => self.flush_all(
                last_agent_message,
            ),
            EventMsgView::Error { message } => SubAgentStep {
                state: self.record_status("error: "@ + message),
                cells: seq![CellView::Error { message }],
            },
            EventMsgView::TurnAborted { reason } => self.record_status(
                "aborted ("@ + reason_name(reason) + ")"@,
            ).flush_all(None),
            _ => quiet(self),
        }
    }

    /// The lines that close the transcript of a child that has ended: how
    /// it ended, its summary unless that is blank, and the share of the
    /// context that was left, if known.
    pub open spec fn footer_lines(self, success: bool, summary: Seq<char>) -> Seq<Seq<char>> {
        seq![if success {
            "✓ completed"@
        } else {
            "✗ failed"@
        }] + (if trim(summary).len() > 0 {
            seq![trim(summary)]
        } else {
            Seq::<Seq<char>>::empty()
        }) + (match self.context_percent {
            Some(pct) => seq!["context remaining: "@ + decimal(pct as nat) + "%"@],
            None => Seq::<Seq<char>>::empty(),
        })
    }

    /// What the end of the child does: everything is flushed, the footer
    /// follows, and the summary becomes the status as it stands.
    pub open spec fn completion_cells(self, success: bool, summary: Seq<char>) -> SubAgentStep {
        let flushed = self.flush_all(None);
        SubAgentStep {
            state: SubAgentView { last_status: Some(summary), ..flushed.state },
            cells: flushed.cells.push(
                CellView::Footer { lines: flushed.state.footer_lines(success, summary) },
            ),
        }
    }
}

/// The words joined by single spaces.
pub fn join_with_spaces(words: &Vec<String>) -> (r: String)
    ensures
        r@ == space_joined(texts(words@)),
{
    let mut r = String::new();
    let mut i: usize = 0;
    assert(texts(words@).take(0) =~= Seq::<Seq<char>>::empty());
    while i < words.len()
        invariant
            i <= words@.len(),
            r@ == space_joined(texts(words@).take(i as int)),
        decreases words@.len() - i,
    {
        proof {
            let next = texts(words@).take(i + 1);
            assert(next.drop_last() =~= texts(words@).take(i as int));
            assert(next.last() == words@[i as int]@);
            if i == 1 {
                let one = texts(words@).take(1);
                assert(one[0] == one.last());
            }
        }
        if i > 0 {
            r.push(' ');
        }
        r.append(words[i].as_str());
        proof {
            if i == 0 {
                assert(Seq::<char>::empty() + words@[0]@ =~= words@[0]@);
            }
        }
        i += 1;
    }
    assert(texts(words@).take(i as int) =~= texts(words@));
    r
}

/// `s` cut to `width` characters, with an ellipsis after them if more were
/// there.
pub fn shorten(s: &str, width: u64) -> (r: String)
    ensures
        r@ == shortened(s@, width as nat),
{
    let count = s.unicode_len();
    if count as u64 > width {
        let mut r = take_chars(s, width);
        r.push('…');
        r
    } else {
        String::from_str(s)
    }
}

/// The preview of a command, given its words joined for a shell, if they
/// could be.
pub fn preview_command(joined: Option<String>, words: &Vec<String>) -> (r: String)
    ensures
        r@ == command_preview(option_text(joined), texts(words@)),
{
    let text = match joined {
        Some(text) => text,
        None => join_with_spaces(words),
    };
    shorten(text.as_str(), COMMAND_PREVIEW_WIDTH)
}

/// The preview of a command: its words joined for a shell, or by spaces
/// where they cannot be, cut short.
pub fn join_command_preview(parts: &Vec<String>) -> (r: String)
    ensures
        r@ == command_preview(shell_joined(texts(parts@)), texts(parts@)),
{
    preview_command(shell_join(parts), parts)
}

/// The status line for a text, if the text is not blank.
pub fn status_line(text: &str) -> (r: Option<String>)
    ensures
        option_text(r) == status_of(text@),
{
    let inner = trimmed(text);
    if inner.as_str().is_empty() {
        return None;
    }
    let lines = split_lines(inner.as_str());
    if lines.len() > 0 {
        Some(shorten(lines[0].as_str(), STATUS_WIDTH))
    } else {
        Some(shorten(inner.as_str(), STATUS_WIDTH))
    }
}

fn no_cells() -> (cells: Vec<SubAgentCell>)
    ensures
        cell_views(cells@) == Seq::<CellView>::empty(),
{
    let cells: Vec<SubAgentCell> = Vec::new();
    assert(cell_views(cells@) =~= Seq::<CellView>::empty());
    cells
}

fn one_cell(cell: SubAgentCell) -> (cells: Vec<SubAgentCell>)
    ensures
        cell_views(cells@) == seq![cell@],
{
    let mut cells: Vec<SubAgentCell> = Vec::new();
    cells.push(cell);
    assert(cell_views(cells@) =~= seq![cell@]);
    cells
}

/// What a front end keeps of a running child agent.
pub struct SubAgentState {
    message_buffer: String,
    reasoning_buffer: String,
    full_reasoning_buffer: String,
    context_percent: Option<u8>,
    last_status: Option<String>,
}

impl View for SubAgentState {
    type V = SubAgentView;

    closed spec fn view(&self) -> SubAgentView {
        SubAgentView {
            message_buffer: self.message_buffer@,
            reasoning_buffer: self.reasoning_buffer@,
            full_reasoning_buffer: self.full_reasoning_buffer@,
            context_percent: self.context_percent,
            last_status: option_text(self.last_status),
        }
    }
}

impl SubAgentState {
    /// The state of a child of which nothing is known yet.
    pub fn new() -> (s: SubAgentState)
        ensures
            s@ == (SubAgentView {
                message_buffer: Seq::<char>::empty(),
                reasoning_buffer: Seq::<char>::empty(),
                full_reasoning_buffer: Seq::<char>::empty(),
                context_percent: None,
                last_status: None,
            }),
    {
        SubAgentState {
            message_buffer: String::new(),
            reasoning_buffer: String::new(),
            full_reasoning_buffer: String::new(),
            context_percent: None,
            last_status: None,
        }
    }

    /// The status line to show.
    pub fn footer_status(&self) -> (r: Option<String>)
        ensures
            option_text(r) == self@.last_status,
    {
        crate::events::clone_option_text(&self.last_status)
    }

    /// The share of the context that is left, in percent, if known.
    pub fn context_percent(&self) -> (r: Option<u8>)
        ensures
            r == self@.context_percent,
    {
        self.context_percent
    }

    pub fn set_context_percent(&mut self, percent: u8)
        ensures
            final(self)@ == (SubAgentView { context_percent: Some(percent), ..old(self)@ }),
    {
        self.context_percent = Some(percent);
    }

    /// Records a status, unless the text is blank.
    pub fn record_status(&mut self, text: &str)
        ensures
            final(self)@ == old(self)@.record_status(text@),
    {
        match status_line(text) {
            Some(status) => {
                self.last_status = Some(status);
            },
            None => {},
        }
    }

    /// Flushes the message that has streamed in, or `message` in its place.
    pub fn flush_message(&mut self, message: Option<String>) -> (cells: Vec<SubAgentCell>)
        ensures
            final(self)@ == old(self)@.flush_message(option_text(message)).state,
            cell_views(cells@) == old(self)@.flush_message(option_text(message)).cells,
    {
        match message {
            Some(m) => {
                self.message_buffer = m;
            },
            None => {},
        }
        let inner = trimmed(self.message_buffer.as_str());
        self.message_buffer = String::new();
        if inner.as_str().is_empty() {
            return no_cells();
        }
        self.record_status(inner.as_str());
        one_cell(SubAgentCell::Message { text: inner })
    }

    /// Flushes the reasoning that has streamed in.
    pub fn flush_reasoning(&mut self) -> (cells: Vec<SubAgentCell>)
        ensures
            final(self)@ == old(self)@.flush_reasoning().state,
            cell_views(cells@) == old(self)@.flush_reasoning().cells,
    {
        if is_blank(self.reasoning_buffer.as_str()) && is_blank(
            self.full_reasoning_buffer.as_str(),
        ) {
            self.reasoning_buffer = String::new();
            self.full_reasoning_buffer = String::new();
            return no_cells();
        }
        if !self.full_reasoning_buffer.as_str().is_empty()
            && !self.reasoning_buffer.as_str().is_empty() {
            self.full_reasoning_buffer.append("\n\n");
        }
        let section = trimmed_end(self.reasoning_buffer.as_str());
        self.full_reasoning_buffer.append(section.as_str());
        let summary = trimmed(self.full_reasoning_buffer.as_str());
        self.reasoning_buffer = String::new();
        self.full_reasoning_buffer = String::new();
        if !summary.as_str().is_empty() {
            self.record_status("reasoned");
            one_cell(SubAgentCell::ReasoningSummary { text: summary })
        } else {
            no_cells()
        }
    }

    /// Ends a section of the reasoning.
    pub fn reasoning_section_break(&mut self)
        ensures
            final(self)@ == old(self)@.reasoning_section_break(),
    {
        if is_blank(self.reasoning_buffer.as_str()) {
            self.reasoning_buffer = String::new();
            return ;
        }
        if !self.full_reasoning_buffer.as_str().is_empty() {
            self.full_reasoning_buffer.append("\n\n");
        }
        let section = trimmed_end(self.reasoning_buffer.as_str());
        self.full_reasoning_buffer.append(section.as_str());
        self.reasoning_buffer = String::new();
    }

    fn flush_all(&mut self, message: Option<String>) -> (cells: Vec<SubAgentCell>)
        ensures
            final(self)@ == old(self)@.flush_all(option_text(message)).state,
            cell_views(cells@) == old(self)@.flush_all(option_text(message)).cells,
    {
        let mut cells = self.flush_message(message);
        let mut more = self.flush_reasoning();
        proof {
            assert(cell_views(cells@ + more@) =~= cell_views(cells@) + cell_views(more@));
        }
        cells.append(&mut more);
        cells
    }

    fn quiet_status(&mut self, text: String) -> (cells: Vec<SubAgentCell>)
        ensures
            final(self)@ == old(self)@.record_status(text@),
            cell_views(cells@) == Seq::<CellView>::empty(),
    {
        self.record_status(text.as_str());
        no_cells()
    }

    /// Takes an event of the child and returns the cells to show for it.
    pub fn handle_event(&mut self, event: Event) -> (cells: Vec<SubAgentCell>)
        ensures
            (SubAgentStep { state: final(self)@, cells: cell_views(cells@) }) == old(
                self,
            )@.handle_event(
                event@.msg,
                match event@.msg {
                    EventMsgView::ExecCommandBegin { command, cwd } => shell_joined(command),
                    _ => None,
                },
            ),
    {
        match event.msg {
            EventMsg::TaskStarted => self.quiet_status(String::from_str("started")),
            EventMsg::AgentMessageDelta { delta } => {
                self.message_buffer.append(delta.as_str());
                no_cells()
            },
            EventMsg::AgentMessage { message } => {
                self.message_buffer = String::new();
                self.quiet_status(String::from_str("responded"))
            },
            EventMsg::AgentReasoningDelta { delta } => {
                self.reasoning_buffer.append(delta.as_str());
                no_cells()
            },
            EventMsg::AgentReasoningRawContentDelta { delta } => {
                self.reasoning_buffer.append(delta.as_str());
                no_cells()
            },
            EventMsg::AgentReasoning { text } => {
                self.reasoning_buffer = String::new();
                self.full_reasoning_buffer = String::new();
                self.quiet_status(String::from_str("reasoning"))
            },
            EventMsg::AgentReasoningRawContent { text } => {
                self.reasoning_buffer = String::new();
                self.full_reasoning_buffer = String::new();
                self.quiet_status(String::from_str("reasoning"))
            },
            EventMsg::AgentReasoningSectionBreak => {
                self.reasoning_section_break();
                no_cells()
            },
            EventMsg::ExecCommandBegin { command, cwd } => {
                let snippet = join_command_preview(&command);
                self.quiet_status(String::from_str("exec ").concat(snippet.as_str()))
            },
            EventMsg::ExecCommandEnd { exit_code } => {
                let code = i64_to_decimal(exit_code as i64);
                self.quiet_status(String::from_str("exec exit ").concat(code.as_str()))
            },
            EventMsg::McpToolCallBegin { server, tool } => self.quiet_status(
                String::from_str("tool ").concat(server.as_str()).concat(".").concat(tool.as_str()),
            ),
            EventMsg::McpToolCallEnd { server, tool, success } => {
                let outcome = if success {
                    "ok"
                } else {
                    "failed"
                };
                self.quiet_status(
                    String::from_str("tool ").concat(server.as_str()).concat(".").concat(
                        tool.as_str(),
                    ).concat(" ").concat(outcome),
                )
            },
            EventMsg::ViewImageToolCall => self.quiet_status(String::from_str("viewed image")),
            EventMsg::WebSearchBegin => self.quiet_status(String::from_str("searching…")),
            EventMsg::WebSearchEnd { query } => self.quiet_status(
                String::from_str("search \"").concat(query.as_str()).concat("\""),
            ),
            EventMsg::TokenCount { tokens_in_context, model_context_window } => {
                match model_context_window {
                    Some(window) => {
                        let pct = context_percent_remaining(tokens_in_context, window);
                        self.set_context_percent(pct);
                    },
                    None => {},
                }
                no_cells()
            },
            EventMsg::StreamError { message } => self.quiet_status(
                String::from_str("stream error: ").concat(message.as_str()),
            ),
            EventMsg::BackgroundEvent { message } => self.quiet_status(message),
            EventMsg::TaskComplete { last_agent_message } => self.flush_all(last_agent_message),
            EventMsg::Error { message } => {
                self.record_status(String::from_str("error: ").concat(message.as_str()).as_str());
                one_cell(SubAgentCell::Error { message })
            },
            EventMsg::TurnAborted { reason } => {
                let name = match reason {
                    TurnAbortReason::Interrupted => "Interrupted",
                    TurnAbortReason::Replaced => "Replaced",
                    TurnAbortReason::ReviewEnded => "ReviewEnded",
                };
                self.record_status(
                    String::from_str("aborted (").concat(name).concat(")").as_str(),
                );
                self.flush_all(None)
            },
            _ => no_cells(),
        }
    }

    /// Takes the end of the child and returns the cells that close its
    /// transcript.
    pub fn completion_cells(&mut self, success: bool, summary: String) -> (cells: Vec<
        SubAgentCell,
    >)
        ensures
            (SubAgentStep { state: final(self)@, cells: cell_views(cells@) }) == old(
                self,
            )@.completion_cells(success, summary@),
    {
        let mut cells = self.flush_all(None);
        let mut lines: Vec<String> = Vec::new();
        lines.push(
            String::from_str(
                if success {
                    "✓ completed"
                } else {
                    "✗ failed"
                },
            ),
        );
        let inner = trimmed(summary.as_str());
        if !inner.as_str().is_empty() {
            lines.push(inner);
        }
        match self.context_percent {
            Some(pct) => {
                lines.push(
                    String::from_str("context remaining: ").concat(
                        u64_to_decimal(pct as u64).as_str(),
                    ).concat("%"),
                );
            },
            None => {},
        }
        assert(texts(lines@) =~= self@.footer_lines(success, summary@));
        let footer = SubAgentCell::Footer { lines };
        proof {
            let before = cells@;
            assert(cell_views(before.push(footer)) =~= cell_views(before).push(footer@));
        }
        cells.push(footer);
        self.last_status = Some(summary);
        cells
    }
}

impl Default for SubAgentState {
    fn default() -> (s: SubAgentState)
        ensures
            s@.last_status is None,
            s@.context_percent is None,
            s@.message_buffer.len() == 0,
    {
        SubAgentState::new()
    }
}

} // verus!
