//! Text helpers shared by the command handlers: whitespace, tokens and
//! path segments, all stated over sequences of characters.

use vstd::prelude::*;

verus! {

/// Whether `c` carries the Unicode `White_Space` property.
pub open spec fn whitespace(c: char) -> bool {
    let n = c as u32;
    ||| 0x09 <= n <= 0x0D
    ||| n == 0x20
    ||| n == 0x85
    ||| n == 0xA0
    ||| n == 0x1680
    ||| 0x2000 <= n <= 0x200A
    ||| n == 0x2028
    ||| n == 0x2029
    ||| n == 0x202F
    ||| n == 0x205F
    ||| n == 0x3000
}

/// Tells whether `c` is a whitespace character.
pub fn is_whitespace(c: char) -> (b: bool)
    ensures
        b == whitespace(c),
{
    let n: u32 = c as u32;
    (0x09 <= n && n <= 0x0D) || n == 0x20 || n == 0x85 || n == 0xA0 || n == 0x1680 || (0x2000 <= n
        && n <= 0x200A) || n == 0x2028 || n == 0x2029 || n == 0x202F || n == 0x205F || n == 0x3000
}

/// The characters of `s`, in order.
pub fn chars_of(s: &str) -> (v: Vec<char>)
    ensures
        v@ == s@,
{
    let mut v: Vec<char> = Vec::new();
    for c in it: s.chars()
        invariant
            it.seq() == s@,
            v@ == it.seq().take(it.index() as int),
    {
        v.push(c);
    }
    v
}

/// Whether two texts hold the same characters.
pub fn same_text(a: &str, b: &str) -> (same: bool)
    ensures
        same == (a@ == b@),
{
    String::from_str(a) == String::from_str(b)
}

/// `head` followed by `tail`.
pub fn joined(head: &str, tail: &str) -> (text: String)
    ensures
        text@ == head@ + tail@,
{
    let mut text = String::from_str(head);
    text.append(tail);
    text
}

/// Where the run that starts at `from` ends. A run is a stretch of
/// characters that are all whitespace (`white`) or all something else (not
/// `white`); it ends before the first character of the other kind, or with
/// the text.
pub open spec fn run_end(s: Seq<char>, from: int, white: bool) -> int
    decreases s.len() - from,
{
    if 0 <= from < s.len() && whitespace(s[from]) == white {
        run_end(s, from + 1, white)
    } else {
        from
    }
}

/// `run_end` stays within the text, covers only characters of the run's
/// kind, and stops at a character of the other kind.
pub proof fn lemma_run_end(s: Seq<char>, from: int, white: bool)
    requires
        0 <= from <= s.len(),
    ensures
        from <= run_end(s, from, white) <= s.len(),
        forall|i: int| from <= i < run_end(s, from, white) ==> whitespace(#[trigger] s[i]) == white,
        run_end(s, from, white) < s.len() ==> whitespace(s[run_end(s, from, white)]) != white,
    decreases s.len() - from,
{
    if from < s.len() && whitespace(s[from]) == white {
        lemma_run_end(s, from + 1, white);
    }
}

/// Walks over the run that starts at `from` and returns where it ends.
pub fn scan_run(chars: &Vec<char>, from: usize, white: bool) -> (end: usize)
    requires
        from <= chars.len(),
    ensures
        end == run_end(chars@, from as int, white),
        from <= end <= chars.len(),
{
    let mut end: usize = from;
    while end < chars.len() && is_whitespace(chars[end]) == white
        invariant
            from <= end <= chars.len(),
            run_end(chars@, from as int, white) == run_end(chars@, end as int, white),
        decreases chars.len() - end,
    {
        end += 1;
    }
    end
}

/// The whitespace-separated tokens of `s` that begin at or after `from`:
/// the maximal runs of non-whitespace characters, in order.
pub open spec fn tokens_from(s: Seq<char>, from: int) -> Seq<Seq<char>>
    decreases s.len() - from,
{
    let start = run_end(s, from, true);
    let end = run_end(s, start, false);
    if 0 <= from <= s.len() && start < s.len() {
        proof {
            lemma_run_end(s, from, true);
            lemma_run_end(s, start, false);
        }
        seq![s.subrange(start, end)] + tokens_from(s, end)
    } else {
        Seq::empty()
    }
}

/// The whitespace-separated tokens of `s`.
pub open spec fn tokens(s: Seq<char>) -> Seq<Seq<char>> {
    tokens_from(s, 0)
}

/// Every token holds at least one character and no whitespace.
pub proof fn law_tokens_are_words(s: Seq<char>, from: int)
    requires
        0 <= from <= s.len(),
    ensures
        forall|i: int|
            0 <= i < tokens_from(s, from).len() ==> (#[trigger] tokens_from(s, from)[i]).len() > 0,
        forall|i: int, j: int|
            0 <= i < tokens_from(s, from).len() && 0 <= j < tokens_from(s, from)[i].len()
                ==> !whitespace(#[trigger] tokens_from(s, from)[i][j]),
    decreases s.len() - from,
{
    let start = run_end(s, from, true);
    let end = run_end(s, start, false);
    lemma_run_end(s, from, true);
    if start < s.len() {
        lemma_run_end(s, start, false);
        law_tokens_are_words(s, end);
        let word = s.subrange(start, end);
        let later = tokens_from(s, end);
        assert(tokens_from(s, from) == seq![word] + later);
        assert(!whitespace(s[start]));
        assert forall|i: int| 0 <= i < tokens_from(s, from).len() implies (
        #[trigger] tokens_from(s, from)[i]).len() > 0 by {
            if i > 0 {
                assert(tokens_from(s, from)[i] == later[i - 1]);
            }
        }
        assert forall|i: int, j: int|
            0 <= i < tokens_from(s, from).len() && 0 <= j < tokens_from(s, from)[i].len()
                implies !whitespace(#[trigger] tokens_from(s, from)[i][j]) by {
            if i > 0 {
                assert(tokens_from(s, from)[i] == later[i - 1]);
            } else {
                assert(word[j] == s[start + j]);
            }
        }
    }
}

/// A text of nothing but whitespace, the empty text among them, has no
/// token.
pub proof fn law_blank_has_no_token(s: Seq<char>)
    requires
        forall|i: int| 0 <= i < s.len() ==> whitespace(#[trigger] s[i]),
    ensures
        tokens(s) == Seq::<Seq<char>>::empty(),
{
    lemma_run_end(s, 0, true);
}

/// Splits `text` into its whitespace-separated tokens.
pub fn split_tokens(text: &str) -> (out: Vec<String>)
    ensures
        out.deep_view() == tokens(text@),
{
    let chars = chars_of(text);
    let mut out: Vec<String> = Vec::new();
    let mut pos: usize = 0;
    loop
        invariant
            chars@ == text@,
            pos <= chars.len(),
            tokens(text@) == out.deep_view() + tokens_from(text@, pos as int),
        ensures
            tokens(text@) == out.deep_view(),
        decreases chars.len() - pos,
    {
        let start = scan_run(&chars, pos, true);
        if start >= chars.len() {
            break ;
        }
        let end = scan_run(&chars, start, false);
        proof {
            lemma_run_end(text@, start as int, false);
        }
        let word = String::from_str(text.substring_char(start, end));
        let ghost before = out.deep_view();
        out.push(word);
        assert(out.deep_view() == before + seq![text@.subrange(start as int, end as int)]);
        pos = end;
    }
    out
}

/// `s` without its first `n` characters; nothing is left of a text that
/// has no more than `n`.
pub open spec fn without_first(s: Seq<char>, n: nat) -> Seq<char> {
    if n <= s.len() {
        s.skip(n as int)
    } else {
        Seq::empty()
    }
}

/// Drops the first `n` characters of `text`.
pub fn drop_first_chars(text: &str, n: usize) -> (rest: String)
    ensures
        rest@ == without_first(text@, n as nat),
{
    let len = text.unicode_len();
    if n <= len {
        String::from_str(text.substring_char(n, len))
    } else {
        String::new()
    }
}

/// Where the last segment of `path` starts: just behind its last `/`, or
/// at 0 when it holds none.
pub open spec fn segment_start(path: Seq<char>) -> int
    decreases path.len(),
{
    if path.len() == 0 {
        0
    } else if path.last() == '/' {
        path.len() as int
    } else {
        segment_start(path.drop_last())
    }
}

/// What follows the last `/` of `path`; the whole of a path without one.
pub open spec fn last_segment(path: Seq<char>) -> Seq<char> {
    path.skip(segment_start(path))
}

/// The last segment starts within the path, directly behind a `/` unless
/// at the very beginning, and holds no `/` itself.
pub proof fn lemma_segment_start(path: Seq<char>)
    ensures
        0 <= segment_start(path) <= path.len(),
        segment_start(path) > 0 ==> path[segment_start(path) - 1] == '/',
        forall|i: int| segment_start(path) <= i < path.len() ==> #[trigger] path[i] != '/',
    decreases path.len(),
{
    if path.len() > 0 && path.last() != '/' {
        let shorter = path.drop_last();
        lemma_segment_start(shorter);
        assert forall|i: int| segment_start(path) <= i < path.len() implies #[trigger] path[i]
            != '/' by {
            if i < shorter.len() {
                assert(path[i] == shorter[i]);
            }
        }
    }
}

/// Only one index is what `lemma_segment_start` says of the start of the
/// last segment.
pub proof fn lemma_segment_start_unique(path: Seq<char>, start: int)
    requires
        0 <= start <= path.len(),
        start > 0 ==> path[start - 1] == '/',
        forall|i: int| start <= i < path.len() ==> #[trigger] path[i] != '/',
    ensures
        segment_start(path) == start,
    decreases path.len(),
{
    if path.len() > 0 && path.last() != '/' {
        let shorter = path.drop_last();
        assert forall|i: int| start <= i < shorter.len() implies #[trigger] shorter[i] != '/' by {
            assert(shorter[i] == path[i]);
        }
        lemma_segment_start_unique(shorter, start);
    }
}

/// Appending text that holds no `/` lengthens the last segment by exactly
/// that text.
pub proof fn lemma_last_segment_append(path: Seq<char>, suffix: Seq<char>)
    requires
        forall|i: int| 0 <= i < suffix.len() ==> #[trigger] suffix[i] != '/',
    ensures
        segment_start(path + suffix) == segment_start(path),
        last_segment(path + suffix) == last_segment(path) + suffix,
    decreases suffix.len(),
{
    lemma_segment_start(path);
    if suffix.len() == 0 {
        assert(path + suffix =~= path);
    } else {
        let shorter = suffix.drop_last();
        lemma_last_segment_append(path, shorter);
        assert((path + suffix).drop_last() =~= path + shorter);
        assert((path + suffix).last() == suffix.last());
        assert(last_segment(path + suffix) =~= last_segment(path) + suffix);
    }
}

/// The last segment of `path`.
pub fn final_segment(path: &str) -> (segment: String)
    ensures
        segment@ == last_segment(path@),
{
    let chars = chars_of(path);
    let mut start: usize = chars.len();
    while start > 0 && chars[start - 1] != '/'
        invariant
            start <= chars.len(),
            forall|i: int| start <= i < chars.len() ==> #[trigger] chars@[i] != '/',
        decreases start,
    {
        start -= 1;
    }
    proof {
        lemma_segment_start_unique(chars@, start as int);
    }
    String::from_str(path.substring_char(start, chars.len()))
}

} // verus!
