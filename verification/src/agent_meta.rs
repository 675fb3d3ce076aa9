//! What is kept of each agent for an overview: its profile and purpose, how
//! it ended, and the last lines of its progress.

use crate::events::{option_text, texts};
use crate::text::{lines_of, split_lines};
use crate::trim::{
    from_chars, has_prefix, parse_u8, read_u8, starts_with, to_chars, trim, trim_bounds, trim_end,
    trim_end_bound, trim_end_char, trim_end_char_bound,
};
use vstd::prelude::*;
use vstd::string::*;

verus! {

/// Number of progress lines kept for an agent.
pub const MAX_LOG_LINES: usize = 40;

/// The words that open a report of the context that is left.
pub open spec fn context_prefix() -> Seq<char> {
    "context left: "@
}

/// The lines to keep of a list of lines: each without the white space at
/// its end, and none that is empty then.
pub open spec fn kept_lines(lines: Seq<Seq<char>>) -> Seq<Seq<char>>
    decreases lines.len(),
{
    if lines.len() == 0 {
        Seq::<Seq<char>>::empty()
    } else if trim_end(lines.last()).len() == 0 {
        kept_lines(lines.drop_last())
    } else {
        kept_lines(lines.drop_last()).push(trim_end(lines.last()))
    }
}

/// The last `n` of `lines`, or all of them if there are fewer.
pub open spec fn last_lines(lines: Seq<Seq<char>>, n: nat) -> Seq<Seq<char>> {
    if lines.len() > n {
        lines.skip(lines.len() - n)
    } else {
        lines
    }
}

/// The percentage that a report of the context left gives, if it spells
/// one: what follows the opening words, without white space around it and
/// without percent signs at its end, read as a number below 256.
pub open spec fn reported_percent(trimmed: Seq<char>) -> Option<u8> {
    parse_u8(trim_end_char(trim(trimmed.skip(context_prefix().len() as int)), '%'))
}

/// Abstract value of an [`AgentMeta`].
pub struct AgentMetaView {
    pub profile: Option<Seq<char>>,
    pub purpose: Seq<char>,
    pub status: Option<bool>,
    pub last_summary: Option<Seq<char>>,
    pub transcript: Seq<Seq<char>>,
    pub context_percent: Option<u8>,
}

impl AgentMetaView {
    /// What is kept after a progress message. A report of the context left
    /// sets the percentage if it spells one. Any other message that is not
    /// blank adds its lines to the transcript, of which the last
    /// `MAX_LOG_LINES` are kept. A blank message changes nothing.
    pub open spec fn on_progress(self, message: Seq<char>) -> AgentMetaView {
        let trimmed = trim(message);
        if has_prefix(trimmed, context_prefix()) {
            match reported_percent(trimmed) {
                Some(percent) => AgentMetaView { context_percent: Some(percent), ..self },
                None => self,
            }
        } else if trimmed.len() > 0 {
            AgentMetaView {
                transcript: last_lines(
                    self.transcript + kept_lines(lines_of(trimmed)),
                    MAX_LOG_LINES as nat,
                ),
                ..self
            }
        } else {
            self
        }
    }

    /// What is kept after the agent completed.
    pub open spec fn on_completed(self, success: bool, summary: Seq<char>) -> AgentMetaView {
        AgentMetaView { status: Some(success), last_summary: Some(summary), ..self }
    }
}

/// What is kept of an agent. The status is none while the agent runs, and
/// says whether it succeeded once it has ended.
#[derive(Clone, Debug, Default)]
pub struct AgentMeta {
    pub profile: Option<String>,
    pub purpose: String,
    pub status: Option<bool>,
    pub last_summary: Option<String>,
    pub transcript: Vec<String>,
    pub context_percent: Option<u8>,
}

impl View for AgentMeta {
    type V = AgentMetaView;

    open spec fn view(&self) -> AgentMetaView {
        AgentMetaView {
            profile: option_text(self.profile),
            purpose: self.purpose@,
            status: self.status,
            last_summary: option_text(self.last_summary),
            transcript: texts(self.transcript@),
            context_percent: self.context_percent,
        }
    }
}

impl AgentMeta {
    /// What is kept of an agent that was just spawned.
    pub fn spawned(profile: Option<String>, purpose: String) -> (meta: AgentMeta)
        ensures
            meta@ == (AgentMetaView {
                profile: option_text(profile),
                purpose: purpose@,
                status: None,
                last_summary: None,
                transcript: Seq::<Seq<char>>::empty(),
                context_percent: None,
            }),
    {
        let meta = AgentMeta {
            profile,
            purpose,
            status: None,
            last_summary: None,
            transcript: Vec::new(),
            context_percent: None,
        };
        assert(texts(meta.transcript@) =~= Seq::<Seq<char>>::empty());
        meta
    }

    /// Takes a progress message of the agent.
    pub fn on_progress(&mut self, message: &str)
        ensures
            final(self)@ == old(self)@.on_progress(message@),
    {
        let chars = to_chars(message);
        let (a, b) = trim_bounds(&chars, 0, chars.len());
        assert(chars@.subrange(0, chars@.len() as int) =~= message@);
        let ghost trimmed = trim(message@);
        let prefix = to_chars("context left: ");
        if starts_with(&chars, a, b, &prefix) {
            let from = a + prefix.len();
            assert(chars@.subrange(from as int, b as int) =~= trimmed.skip(
                context_prefix().len() as int,
            ));
            let (c, d) = trim_bounds(&chars, from, b);
            let e = trim_end_char_bound(&chars, c, d, '%');
            match read_u8(&chars, c, e) {
                Some(percent) => {
                    self.context_percent = Some(percent);
                },
                None => {},
            }
        } else if a < b {
            let text = from_chars(&chars, a, b);
            let lines = split_lines(text.as_str());
            let ghost before = texts(self.transcript@);
            let mut i: usize = 0;
            assert(texts(lines@).take(0) =~= Seq::<Seq<char>>::empty());
            assert(before + Seq::<Seq<char>>::empty() =~= before);
            while i < lines.len()
                invariant
                    i <= lines@.len(),
                    texts(self.transcript@) == before + kept_lines(texts(lines@).take(i as int)),
                    self.profile == old(self).profile,
                    self.purpose == old(self).purpose,
                    self.status == old(self).status,
                    self.last_summary == old(self).last_summary,
                    self.context_percent == old(self).context_percent,
                decreases lines@.len() - i,
            {
                let line = to_chars(lines[i].as_str());
                let end = trim_end_bound(&line, 0, line.len());
                proof {
                    let next = texts(lines@).take(i + 1);
                    assert(next.drop_last() =~= texts(lines@).take(i as int));
                    assert(next.last() == lines@[i as int]@);
                    assert(line@.subrange(0, line@.len() as int) =~= line@);
                }
                if end > 0 {
                    let kept = from_chars(&line, 0, end);
                    let ghost so_far = texts(self.transcript@);
                    self.transcript.push(kept);
                    assert(texts(self.transcript@) =~= so_far.push(kept@));
                    assert(before + kept_lines(texts(lines@).take(i as int)).push(kept@)
                        =~= so_far.push(kept@));
                }
                i += 1;
            }
            assert(texts(lines@).take(i as int) =~= texts(lines@));
            if self.transcript.len() > MAX_LOG_LINES {
                let overflow = self.transcript.len() - MAX_LOG_LINES;
                let ghost full = texts(self.transcript@);
                let kept = self.transcript.split_off(overflow);
                self.transcript = kept;
                assert(texts(self.transcript@) =~= full.skip(overflow as int));
            }
        }
    }

    /// Takes the completion of the agent.
    pub fn on_completed(&mut self, success: bool, summary: String)
        ensures
            final(self)@ == old(self)@.on_completed(success, summary@),
    {
        self.status = Some(success);
        self.last_summary = Some(summary);
    }
}

} // verus!
