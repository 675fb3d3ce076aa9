//! Text helpers shared by the orchestration components: byte and character
//! measures, prefixes and suffixes by character, and decimal rendering.

use crate::events::texts;
use vstd::prelude::*;
use vstd::string::*;
use vstd::utf8::*;

verus! {

/// Length of `s` in bytes once encoded as UTF-8.
pub open spec fn utf8_len(s: Seq<char>) -> nat {
    encode_utf8(s).len()
}

/// Token estimate of a text: its UTF-8 length divided by four, rounded up.
pub open spec fn token_estimate(s: Seq<char>) -> nat {
    (utf8_len(s) + 3) / 4
}

/// The first `n` characters of `s`, or all of `s` when it is shorter.
pub open spec fn char_prefix(s: Seq<char>, n: nat) -> Seq<char> {
    if n < s.len() {
        s.take(n as int)
    } else {
        s
    }
}

/// The last `n` characters of `s`, or all of `s` when it is shorter.
pub open spec fn char_suffix(s: Seq<char>, n: nat) -> Seq<char> {
    if n < s.len() {
        s.skip(s.len() - n)
    } else {
        s
    }
}

/// The decimal digit for a value below ten.
pub open spec fn digit_char(d: nat) -> char {
    if d == 0 {
        '0'
    } else if d == 1 {
        '1'
    } else if d == 2 {
        '2'
    } else if d == 3 {
        '3'
    } else if d == 4 {
        '4'
    } else if d == 5 {
        '5'
    } else if d == 6 {
        '6'
    } else if d == 7 {
        '7'
    } else if d == 8 {
        '8'
    } else {
        '9'
    }
}

/// Decimal rendering of a natural number, without leading zeros.
pub open spec fn decimal(n: nat) -> Seq<char>
    decreases n,
{
    if n < 10 {
        seq![digit_char(n)]
    } else {
        decimal(n / 10).push(digit_char(n % 10))
    }
}

/// Decimal rendering of an integer, with a leading minus sign when negative.
pub open spec fn signed_decimal(i: int) -> Seq<char> {
    if i < 0 {
        seq!['-'] + decimal((-i) as nat)
    } else {
        decimal(i as nat)
    }
}

/// Length of `s` in bytes.
pub fn byte_len(s: &str) -> (n: usize)
    ensures
        n == utf8_len(s@),
{
    s.as_bytes().len()
}

/// Token estimate of `s`: its byte length divided by four, rounded up.
pub fn estimate_tokens(s: &str) -> (n: usize)
    ensures
        n == token_estimate(s@),
        n <= usize::MAX / 4 + 1,
{
    let len = byte_len(s);
    if len % 4 == 0 {
        len / 4
    } else {
        len / 4 + 1
    }
}

/// Whether `s` holds a line feed.
pub fn contains_newline(s: &str) -> (r: bool)
    ensures
        r == s@.contains('\n'),
{
    let mut found = false;
    for c in it: s.chars()
        invariant
            it.seq() == s@,
            found == (exists|i: int| 0 <= i < it.index() && s@[i] == '\n'),
    {
        if c == '\n' {
            found = true;
        }
    }
    found
}

/// The first `n` characters of `s` as an owned string.
pub fn take_chars(s: &str, n: u64) -> (r: String)
    ensures
        r@ == char_prefix(s@, n as nat),
{
    let len = s.unicode_len();
    if n < len as u64 {
        String::from_str(s.substring_char(0, n as usize))
    } else {
        String::from_str(s)
    }
}

/// The last `n` characters of `s` as an owned string.
pub fn tail_chars(s: &str, n: usize) -> (r: String)
    ensures
        r@ == char_suffix(s@, n as nat),
{
    let len = s.unicode_len();
    if n < len {
        let r = String::from_str(s.substring_char(len - n, len));
        assert(s@.subrange(len - n, len as int) == s@.skip(len - n));
        r
    } else {
        String::from_str(s)
    }
}

/// The concatenation of two texts.
pub fn concat2(a: &str, b: &str) -> (r: String)
    ensures
        r@ == a@ + b@,
{
    String::from_str(a).concat(b)
}

fn digit_text(d: u64) -> (r: &'static str)
    requires
        d < 10,
    ensures
        r@ == seq![digit_char(d as nat)],
{
    proof {
        reveal_strlit("0");
        reveal_strlit("1");
        reveal_strlit("2");
        reveal_strlit("3");
        reveal_strlit("4");
        reveal_strlit("5");
        reveal_strlit("6");
        reveal_strlit("7");
        reveal_strlit("8");
        reveal_strlit("9");
    }
    let r = if d == 0 {
        "0"
    } else if d == 1 {
        "1"
    } else if d == 2 {
        "2"
    } else if d == 3 {
        "3"
    } else if d == 4 {
        "4"
    } else if d == 5 {
        "5"
    } else if d == 6 {
        "6"
    } else if d == 7 {
        "7"
    } else if d == 8 {
        "8"
    } else {
        "9"
    };
    assert(r@ =~= seq![digit_char(d as nat)]);
    r
}

/// Decimal rendering of `n`.
pub fn u64_to_decimal(n: u64) -> (r: String)
    ensures
        r@ == decimal(n as nat),
{
    let mut rest: u64 = n / 10;
    let mut s = String::from_str(digit_text(n % 10));
    assert(decimal(n as nat) =~= (if rest > 0 {
        decimal(rest as nat)
    } else {
        Seq::<char>::empty()
    }) + s@);
    while rest > 0
        invariant
            decimal(n as nat) == (if rest > 0 {
                decimal(rest as nat)
            } else {
                Seq::<char>::empty()
            }) + s@,
        decreases rest,
    {
        let d: u64 = rest % 10;
        let ghost before = s@;
        s = String::from_str(digit_text(d)).concat(s.as_str());
        let ghost prev = rest;
        rest = rest / 10;
        assert(decimal(n as nat) =~= (if rest > 0 {
            decimal(rest as nat)
        } else {
            Seq::<char>::empty()
        }) + s@) by {
            assert(s@ =~= seq![digit_char(d as nat)] + before);
            if prev >= 10 {
                assert(decimal(prev as nat) == decimal(rest as nat).push(digit_char(d as nat)));
            } else {
                assert(decimal(prev as nat) == seq![digit_char(d as nat)]);
            }
        }
    }
    s
}

/// Decimal rendering of `n`, with a leading minus sign when negative.
pub fn i64_to_decimal(n: i64) -> (r: String)
    ensures
        r@ == signed_decimal(n as int),
{
    if n < 0 {
        let magnitude: u64 = if n == i64::MIN {
            9223372036854775808u64
        } else {
            (-n) as u64
        };
        let digits = u64_to_decimal(magnitude);
        let r = concat2("-", digits.as_str());
        proof {
            reveal_strlit("-");
            assert("-"@ =~= seq!['-']);
        }
        r
    } else {
        u64_to_decimal(n as u64)
    }
}

/// Appends `c` to `s`, as std documents for `String::push`.
pub assume_specification[ String::push ](s: &mut String, c: char)
    ensures
        final(s)@ == old(s)@.push(c),
;

/// Index of the first line feed of `s`, or the length of `s` if it has none.
pub open spec fn line_end(s: Seq<char>) -> int
    decreases s.len(),
{
    if s.len() == 0 {
        0
    } else if s[0] == '\n' {
        0
    } else {
        1 + line_end(s.skip(1))
    }
}

/// `line` without the carriage return at its end, if it has one.
pub open spec fn strip_cr(line: Seq<char>) -> Seq<char> {
    if line.len() > 0 && line.last() == '\r' {
        line.drop_last()
    } else {
        line
    }
}

/// The lines of `s`. A line ends at a line feed, or at a carriage return
/// followed by a line feed, and holds neither. What follows the last line
/// feed is a line too unless it is empty, and is kept as it stands.
pub open spec fn lines_of(s: Seq<char>) -> Seq<Seq<char>>
    decreases s.len(),
{
    if s.len() == 0 {
        Seq::<Seq<char>>::empty()
    } else if line_end(s) < 0 || line_end(s) >= s.len() {
        seq![s]
    } else {
        seq![strip_cr(s.take(line_end(s)))] + lines_of(s.skip(line_end(s) + 1))
    }
}

/// The first line feed of `s` is where the first one is found.
pub proof fn lemma_line_end(s: Seq<char>, k: int)
    requires
        0 <= k <= s.len(),
        forall|j: int| 0 <= j < k ==> s[j] != '\n',
        k == s.len() || s[k] == '\n',
    ensures
        line_end(s) == k,
    decreases s.len(),
{
    if s.len() > 0 && k > 0 {
        lemma_line_end(s.skip(1), k - 1);
    }
}

/// The lines of `s`, as std's `str::lines` gives them.
pub fn split_lines(s: &str) -> (lines: Vec<String>)
    ensures
        texts(lines@) == lines_of(s@),
{
    let mut lines: Vec<String> = Vec::new();
    let mut current = String::new();
    let mut pending_cr = false;
    let ghost mut start: int = 0;
    assert(s@.skip(0) =~= s@);
    assert(texts(lines@) =~= Seq::<Seq<char>>::empty());
    assert(s@.subrange(0, 0) =~= current@);
    for c in it: s.chars()
        invariant
            it.seq() == s@,
            0 <= start <= it.index(),
            lines_of(s@) == texts(lines@) + lines_of(s@.skip(start)),
            s@.subrange(start, it.index() as int) == current@ + (if pending_cr {
                seq!['\r']
            } else {
                Seq::<char>::empty()
            }),
            forall|j: int| start <= j < it.index() ==> s@[j] != '\n',
            !pending_cr ==> current@.len() == 0 || current@.last() != '\r',
    {
        let ghost i = it.index() as int;
        let ghost before = current@;
        let ghost had_cr = pending_cr;
        assert(s@.subrange(start, i + 1) =~= s@.subrange(start, i).push(c));
        if c == '\n' {
            proof {
                let rest = s@.skip(start);
                lemma_line_end(rest, i - start);
                assert(rest.take(i - start) =~= s@.subrange(start, i));
                assert(rest.skip(i - start + 1) =~= s@.skip(i + 1));
                assert(strip_cr(s@.subrange(start, i)) =~= before);
                let done = texts(lines@);
                assert(texts(lines@.push(current)) =~= done.push(before));
                assert(done + (seq![before] + lines_of(s@.skip(i + 1))) =~= done.push(before)
                    + lines_of(s@.skip(i + 1)));
                start = i + 1;
                assert(s@.subrange(start, i + 1) =~= Seq::<char>::empty());
            }
            lines.push(current);
            current = String::new();
            pending_cr = false;
            assert(s@.subrange(start, i + 1) =~= current@ + Seq::<char>::empty());
        } else {
            if pending_cr {
                current.push('\r');
            }
            if c == '\r' {
                pending_cr = true;
                assert(s@.subrange(start, i + 1) =~= current@ + seq!['\r']);
            } else {
                current.push(c);
                pending_cr = false;
                assert(s@.subrange(start, i + 1) =~= current@ + Seq::<char>::empty());
            }
        }
    }
    if pending_cr {
        current.push('\r');
    }
    proof {
        let rest = s@.skip(start);
        assert(rest =~= s@.subrange(start, s@.len() as int));
        assert(rest =~= current@);
        let done = texts(lines@);
        if rest.len() == 0 {
            assert(done + Seq::<Seq<char>>::empty() =~= done);
        } else {
            lemma_line_end(rest, rest.len() as int);
            assert(texts(lines@.push(current)) =~= done.push(current@));
            assert(done + seq![rest] =~= done.push(rest));
        }
    }
    if !current.as_str().is_empty() {
        lines.push(current);
    }
    lines
}

} // verus!
