//! Text helpers over the character view of strings.

use vstd::prelude::*;
use vstd::std_specs::iter::IteratorSpec;
use vstd::string::StrSliceExecFns;
use vstd::string::StringExecFns;
use vstd::string::StringSliceAdditionalSpecFns;

verus! {

/// `n` is where the first line of `text` stops: no line feed stands before
/// position `n`, and position `n` is either a line feed or the end of `text`.
pub open spec fn is_first_line_end(text: Seq<char>, n: int) -> bool {
    &&& 0 <= n <= text.len()
    &&& forall|i: int| 0 <= i < n ==> text[i] != '\n'
    &&& n < text.len() ==> text[n] == '\n'
}

/// The position at which the first line of `text` stops.
pub open spec fn first_line_end(text: Seq<char>) -> int {
    choose|n: int| is_first_line_end(text, n)
}

/// The first line of `text`, without its line ending. A line ends at a line
/// feed; a carriage return directly before that line feed belongs to the
/// line ending. Text without a line feed is one line.
pub open spec fn first_line(text: Seq<char>) -> Seq<char> {
    let n = first_line_end(text);
    if 0 < n < text.len() && text[n - 1] == '\r' {
        text.subrange(0, n - 1)
    } else {
        text.subrange(0, n)
    }
}

/// The lines of `text`, each without its line ending. A line ending at the
/// end of `text` opens no further line, and empty text has no line.
pub open spec fn lines_of(text: Seq<char>) -> Seq<Seq<char>>
    decreases text.len(),
{
    if text.len() == 0 {
        Seq::empty()
    } else {
        let n = first_line_end(text);
        if 0 <= n < text.len() {
            seq![first_line(text)] + lines_of(text.skip(n + 1))
        } else {
            seq![first_line(text)]
        }
    }
}

/// The escape character, with which terminal control sequences begin.
pub const ESCAPE: char = '\u{1b}';

/// `text` with its escape characters left out.
pub open spec fn without_escapes(text: Seq<char>) -> Seq<char> {
    text.filter(|c: char| c != ESCAPE)
}

/// `parts` written one after the other with `sep` between neighbours.
pub open spec fn joined(parts: Seq<Seq<char>>, sep: Seq<char>) -> Seq<char>
    decreases parts.len(),
{
    if parts.len() == 0 {
        Seq::empty()
    } else if parts.len() == 1 {
        parts[0]
    } else {
        joined(parts.drop_last(), sep) + sep + parts.last()
    }
}

/// A text has exactly one position at which its first line stops.
pub proof fn lemma_first_line_end_unique(text: Seq<char>, n: int)
    requires
        is_first_line_end(text, n),
    ensures
        first_line_end(text) == n,
{
    // Of two such positions the first would hold a line feed, and no line
    // feed stands before the second.
    let m = first_line_end(text);
    if m < n {
        assert(text[m] == '\n');
    } else if n < m {
        assert(text[n] == '\n');
    }
}

/// Whether two string slices hold the same characters.
pub fn str_eq(left: &str, right: &str) -> (same: bool)
    ensures
        same == (left@ == right@),
{
    let a = left.as_bytes();
    let b = right.as_bytes();
    proof {
        vstd::utf8::encode_utf8_decode_utf8(left@);
        vstd::utf8::encode_utf8_decode_utf8(right@);
    }
    if a.len() != b.len() {
        return false;
    }
    let mut i: usize = 0;
    while i < a.len()
        invariant
            i <= a.len(),
            a.len() == b.len(),
            a@ == left.spec_bytes(),
            b@ == right.spec_bytes(),
            forall|j: int| 0 <= j < i ==> a@[j] == b@[j],
        decreases a.len() - i,
    {
        if a[i] != b[i] {
            return false;
        }
        i += 1;
    }
    assert(a@ =~= b@);
    true
}

/// The first line of `text`, borrowed from it.
pub fn first_line_of(text: &str) -> (line: &str)
    ensures
        line@ == first_line(text@),
{
    let total = text.unicode_len();
    let mut chars = text.chars();
    let mut n: usize = 0;
    let mut after_cr = false;
    let mut at_feed = false;
    while n < total && !at_feed
        invariant
            total == text@.len(),
            n <= total,
            chars.remaining() == text@.skip(if at_feed { n + 1 } else { n as int }),
            forall|i: int| 0 <= i < n ==> text@[i] != '\n',
            after_cr == (n > 0 && text@[n - 1] == '\r'),
            at_feed ==> n < total && text@[n as int] == '\n',
        decreases total - n + (if at_feed { 0int } else { 1int }),
    {
        let next = chars.next();
        match next {
            Some(c) => {
                if c == '\n' {
                    at_feed = true;
                } else {
                    after_cr = c == '\r';
                    n += 1;
                }
            },
            None => {},
        }
    }
    proof {
        lemma_first_line_end_unique(text@, n as int);
    }
    if at_feed && after_cr {
        text.substring_char(0, n - 1)
    } else {
        text.substring_char(0, n)
    }
}

/// A copy of `text` with its escape characters left out.
pub fn strip_escapes(text: &str) -> (safe: String)
    ensures
        safe@ == without_escapes(text@),
        !safe@.contains(ESCAPE),
{
    let total = text.unicode_len();
    let mut chars = text.chars();
    let mut safe = String::new();
    let mut start: usize = 0;
    let mut i: usize = 0;
    proof {
        reveal(Seq::filter);
    }
    while i < total
        invariant
            total == text@.len(),
            start <= i <= total,
            chars.remaining() == text@.skip(i as int),
            safe@ + text@.subrange(start as int, i as int) == without_escapes(
                text@.take(i as int),
            ),
        decreases total - i,
    {
        let next = chars.next();
        proof {
            assert(text@.take(i + 1) =~= text@.take(i as int).push(text@[i as int]));
            text@.take(i as int).lemma_filter_push(text@[i as int], |c: char| c != ESCAPE);
        }
        match next {
            Some(c) => {
                if c == ESCAPE {
                    safe.append(text.substring_char(start, i));
                    start = i + 1;
                }
            },
            None => {},
        }
        i += 1;
    }
    safe.append(text.substring_char(start, total));
    safe
}

/// The strings of `parts` written one after the other with `sep` between
/// neighbours.
pub fn join(parts: &Vec<String>, sep: &str) -> (text: String)
    ensures
        text@ == joined(parts.deep_view(), sep@),
{
    let mut text = String::new();
    let mut i: usize = 0;
    while i < parts.len()
        invariant
            i <= parts.len(),
            text@ == joined(parts.deep_view().take(i as int), sep@),
        decreases parts.len() - i,
    {
        proof {
            let done = parts.deep_view().take(i as int);
            let next = parts.deep_view().take(i + 1);
            assert(next.drop_last() =~= done);
        }
        if i > 0 {
            text.append(sep);
        }
        text.append(parts[i].as_str());
        i += 1;
    }
    assert(parts.deep_view().take(parts.len() as int) =~= parts.deep_view());
    text
}

} // verus!
