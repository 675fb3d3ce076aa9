//! Small texts of the chat front end: the name of a rate limit window, the
//! first bold passage of a text, and the first message of a session.

use crate::text::{decimal, u64_to_decimal};
use crate::trim::{from_chars, to_chars, trim, trim_bounds};
use vstd::prelude::*;
use vstd::string::*;

verus! {

pub const MINUTES_PER_HOUR: u64 = 60;

pub const MINUTES_PER_DAY: u64 = 1440;

pub const MINUTES_PER_WEEK: u64 = 10080;

pub const MINUTES_PER_MONTH: u64 = 43200;

/// Minutes by which a window may exceed a day, a week or a month and still
/// count as one.
pub const ROUNDING_BIAS_MINUTES: u64 = 3;

/// The name of a rate limit window of so many minutes: its hours, at least
/// one, for a window of up to a day; else weekly, monthly or annual.
pub open spec fn limits_duration(windows_minutes: nat) -> Seq<char> {
    if windows_minutes <= MINUTES_PER_DAY + ROUNDING_BIAS_MINUTES {
        let hours = ((windows_minutes + ROUNDING_BIAS_MINUTES) / (MINUTES_PER_HOUR as int)) as nat;
        decimal(if hours < 1 {
            1nat
        } else {
            hours
        }) + "h"@
    } else if windows_minutes <= MINUTES_PER_WEEK + ROUNDING_BIAS_MINUTES {
        "weekly"@
    } else if windows_minutes <= MINUTES_PER_MONTH + ROUNDING_BIAS_MINUTES {
        "monthly"@
    } else {
        "annual"@
    }
}

/// The name of a rate limit window of so many minutes.
pub fn get_limits_duration(windows_minutes: u64) -> (r: String)
    ensures
        r@ == limits_duration(windows_minutes as nat),
{
    if windows_minutes <= MINUTES_PER_DAY + ROUNDING_BIAS_MINUTES {
        let adjusted = windows_minutes + ROUNDING_BIAS_MINUTES;
        let hours = adjusted / MINUTES_PER_HOUR;
        let hours = if hours < 1 {
            1
        } else {
            hours
        };
        u64_to_decimal(hours).concat("h")
    } else if windows_minutes <= MINUTES_PER_WEEK + ROUNDING_BIAS_MINUTES {
        String::from_str("weekly")
    } else if windows_minutes <= MINUTES_PER_MONTH + ROUNDING_BIAS_MINUTES {
        String::from_str("monthly")
    } else {
        String::from_str("annual")
    }
}

/// Whether two asterisks stand at index `i` of `s`.
pub open spec fn stars_at(s: Seq<char>, i: int) -> bool {
    0 <= i && i + 1 < s.len() && s[i] == '*' && s[i + 1] == '*'
}

/// The first index from `from` on at which two asterisks stand, or the
/// length of `s` if there is none.
pub open spec fn next_stars(s: Seq<char>, from: int) -> int
    decreases s.len() - from,
{
    if from < 0 || from >= s.len() {
        s.len() as int
    } else if stars_at(s, from) {
        from
    } else {
        next_stars(s, from + 1)
    }
}

/// The first bold passage of `s`: what stands between the first two
/// asterisks and the next two, without the white space around it. There is
/// none if the passage is not closed or is blank.
pub open spec fn first_bold(s: Seq<char>) -> Option<Seq<char>> {
    let open = next_stars(s, 0);
    if open >= s.len() {
        None
    } else {
        let close = next_stars(s, open + 2);
        if close >= s.len() {
            None
        } else if trim(s.subrange(open + 2, close)).len() == 0 {
            None
        } else {
            Some(trim(s.subrange(open + 2, close)))
        }
    }
}

/// The next two asterisks are where they are first found.
pub proof fn lemma_next_stars(s: Seq<char>, from: int, k: int)
    requires
        0 <= from <= k <= s.len(),
        forall|j: int| from <= j < k ==> !stars_at(s, j),
        k == s.len() || stars_at(s, k),
    ensures
        next_stars(s, from) == k,
    decreases k - from,
{
    if from < k {
        lemma_next_stars(s, from + 1, k);
    }
}

fn find_stars(v: &Vec<char>, from: usize) -> (k: usize)
    requires
        from <= v@.len(),
    ensures
        k == next_stars(v@, from as int),
        from <= k <= v@.len(),
        k < v@.len() ==> stars_at(v@, k as int),
{
    let mut i: usize = from;
    while i < v.len()
        invariant
            from <= i <= v@.len(),
            forall|j: int| from <= j < i ==> !stars_at(v@, j),
        decreases v@.len() - i,
    {
        if i + 1 < v.len() && v[i] == '*' && v[i + 1] == '*' {
            proof {
                lemma_next_stars(v@, from as int, i as int);
            }
            return i;
        }
        i += 1;
    }
    proof {
        lemma_next_stars(v@, from as int, i as int);
    }
    i
}

/// The first bold passage of `s`, if it has one that is closed and not
/// blank.
pub fn extract_first_bold(s: &str) -> (r: Option<String>)
    ensures
        crate::events::option_text(r) == first_bold(s@),
{
    let chars = to_chars(s);
    let open = find_stars(&chars, 0);
    if open >= chars.len() {
        return None;
    }
    let start = open + 2;
    let close = find_stars(&chars, start);
    if close >= chars.len() {
        return None;
    }
    let (a, b) = trim_bounds(&chars, start, close);
    if a < b {
        Some(from_chars(&chars, a, b))
    } else {
        None
    }
}

/// A message of the user: its text and the images that go with it.
#[derive(Debug, Clone)]
pub struct UserMessage {
    pub text: String,
    pub image_paths: Vec<String>,
}

impl UserMessage {
    /// A text alone makes a message without images.
    pub fn from_text(text: String) -> (message: UserMessage)
        ensures
            message.text == text,
            message.image_paths@.len() == 0,
    {
        UserMessage { text, image_paths: Vec::new() }
    }
}

/// The first message of a session, unless there is neither text nor image.
pub fn create_initial_user_message(text: String, image_paths: Vec<String>) -> (r: Option<
    UserMessage,
>)
    ensures
        match r {
            Some(message) => {
                &&& !(text@.len() == 0 && image_paths@.len() == 0)
                &&& message.text == text
                &&& message.image_paths == image_paths
            },
            None => text@.len() == 0 && image_paths@.len() == 0,
        },
{
    if text.as_str().is_empty() && image_paths.len() == 0 {
        None
    } else {
        Some(UserMessage { text, image_paths })
    }
}

} // verus!
