//! The version assignment of a keyed-TOML style file: a line that holds
//! `version = "<value>"`, possibly indented. This module finds the value,
//! reads it and replaces it, leaving every other character as it was.

use crate::text::{chars_of, matches_at, occurs_at, opt_text, substring};
use vstd::prelude::*;

verus! {

/// A stretch of text: from `start` up to, not including, `end`.
pub struct Span {
    pub start: int,
    pub end: int,
}

/// Space or tab.
pub open spec fn is_blank(c: char) -> bool {
    c == ' ' || c == '\t'
}

/// The key of the assignment.
pub open spec fn key() -> Seq<char> {
    seq!['v', 'e', 'r', 's', 'i', 'o', 'n']
}

/// The first position at or after `i` that holds no blank.
pub open spec fn skip_blanks(s: Seq<char>, i: int) -> int
    decreases s.len() - i,
{
    if 0 <= i < s.len() && is_blank(s[i]) {
        skip_blanks(s, i + 1)
    } else {
        i
    }
}

/// The first position at or after `i` that holds a double quote, or the end
/// of `s` where there is none.
pub open spec fn next_quote(s: Seq<char>, i: int) -> int
    decreases s.len() - i,
{
    if 0 <= i < s.len() && s[i] != '"' {
        next_quote(s, i + 1)
    } else {
        i
    }
}

/// Where the value begins, if the text from `i` on reads: blanks, the key,
/// blanks, `=`, blanks, a double quote.
pub open spec fn value_start(s: Seq<char>, i: int) -> Option<int> {
    let a = skip_blanks(s, i);
    if !occurs_at(s, key(), a) {
        None
    } else {
        let b = skip_blanks(s, a + 7);
        if !(b < s.len() && s[b] == '=') {
            None
        } else {
            let c = skip_blanks(s, b + 1);
            if c < s.len() && s[c] == '"' {
                Some(c + 1)
            } else {
                None
            }
        }
    }
}

/// Where the value begins and ends, if an assignment starts at `i`: the
/// value is not empty, holds no double quote, and is closed by one.
pub open spec fn value_span_at(s: Seq<char>, i: int) -> Option<Span> {
    match value_start(s, i) {
        Some(v) => {
            let d = next_quote(s, v);
            if v < d < s.len() {
                Some(Span { start: v, end: d })
            } else {
                None
            }
        },
        None => None,
    }
}

/// A line begins at `i`.
pub open spec fn is_line_start(s: Seq<char>, i: int) -> bool {
    i == 0 || (0 < i <= s.len() && s[i - 1] == '\n')
}

/// An assignment of the version begins at `i`, at the start of a line.
pub open spec fn assignment_at(s: Seq<char>, i: int) -> bool {
    is_line_start(s, i) && value_span_at(s, i) is Some
}

/// The value of the first assignment that begins at or after `i`.
pub open spec fn span_from(s: Seq<char>, i: int) -> Option<Span>
    decreases s.len() - i,
{
    if i < 0 || i >= s.len() {
        None
    } else if assignment_at(s, i) {
        value_span_at(s, i)
    } else {
        span_from(s, i + 1)
    }
}

/// Where the version literal of `s` begins and ends: the value of the first
/// line that assigns the version. `None` where no line does.
pub open spec fn literal_span(s: Seq<char>) -> Option<Span> {
    span_from(s, 0)
}

/// The version literal of `s`.
pub open spec fn literal(s: Seq<char>) -> Option<Seq<char>> {
    match literal_span(s) {
        Some(span) => Some(s.subrange(span.start, span.end)),
        None => None,
    }
}

/// `s` with its version literal replaced by `text`.
pub open spec fn with_literal(s: Seq<char>, text: Seq<char>) -> Option<Seq<char>> {
    match literal_span(s) {
        Some(span) => Some(s.take(span.start) + text + s.skip(span.end)),
        None => None,
    }
}

/// `text` can stand as a literal: it is not empty and holds no double quote.
pub open spec fn fits_literal(text: Seq<char>) -> bool {
    text.len() > 0 && forall|k: int| 0 <= k < text.len() ==> text[k] != '"'
}

proof fn lemma_skip_blanks(s: Seq<char>, i: int)
    requires
        0 <= i,
    ensures
        i <= skip_blanks(s, i),
        i <= s.len() ==> skip_blanks(s, i) <= s.len(),
        forall|j: int| i <= j < skip_blanks(s, i) ==> is_blank(s[j]),
        skip_blanks(s, i) < s.len() ==> !is_blank(s[skip_blanks(s, i)]),
    decreases s.len() - i,
{
    if i < s.len() && is_blank(s[i]) {
        lemma_skip_blanks(s, i + 1);
    }
}

proof fn lemma_next_quote(s: Seq<char>, i: int)
    requires
        0 <= i,
    ensures
        i <= next_quote(s, i),
        i <= s.len() ==> next_quote(s, i) <= s.len(),
        forall|j: int| i <= j < next_quote(s, i) ==> s[j] != '"',
        next_quote(s, i) < s.len() ==> s[next_quote(s, i)] == '"',
    decreases s.len() - i,
{
    if i < s.len() && s[i] != '"' {
        lemma_next_quote(s, i + 1);
    }
}

/// The position that `skip_blanks` gives is fixed by the characters it
/// passes and the one it stops at.
proof fn lemma_skip_blanks_is(s: Seq<char>, i: int, stop: int)
    requires
        0 <= i <= stop <= s.len(),
        forall|j: int| i <= j < stop ==> is_blank(#[trigger] s[j]),
        stop == s.len() || !is_blank(s[stop]),
    ensures
        skip_blanks(s, i) == stop,
    decreases stop - i,
{
    if i < stop {
        assert(is_blank(s[i]));
        lemma_skip_blanks_is(s, i + 1, stop);
    }
}

proof fn lemma_next_quote_is(s: Seq<char>, i: int, stop: int)
    requires
        0 <= i <= stop <= s.len(),
        forall|j: int| i <= j < stop ==> #[trigger] s[j] != '"',
        stop == s.len() || s[stop] == '"',
    ensures
        next_quote(s, i) == stop,
    decreases stop - i,
{
    if i < stop {
        assert(s[i] != '"');
        lemma_next_quote_is(s, i + 1, stop);
    }
}

/// What `value_start` reads lies before the position it returns, and none of
/// it is a line feed.
proof fn lemma_value_start(s: Seq<char>, i: int)
    requires
        0 <= i,
        value_start(s, i) is Some,
    ensures
        i < value_start(s, i)->0 <= s.len(),
        s[value_start(s, i)->0 - 1] == '"',
        forall|j: int| i <= j < value_start(s, i)->0 ==> s[j] != '\n',
{
    let a = skip_blanks(s, i);
    let b = skip_blanks(s, a + 7);
    let c = skip_blanks(s, b + 1);
    lemma_skip_blanks(s, i);
    lemma_skip_blanks(s, a + 7);
    lemma_skip_blanks(s, b + 1);
    assert forall|j: int| i <= j < c + 1 implies s[j] != '\n' by {
        if a <= j < a + 7 {
            assert(s.subrange(a, a + 7)[j - a] == key()[j - a]);
        }
    }
}

/// Two texts that agree before `n` give the same `value_span_at` wherever
/// the first gives a span that ends before `n`.
proof fn lemma_span_is_local(s: Seq<char>, t: Seq<char>, i: int, n: int)
    requires
        0 <= i,
        0 <= n <= s.len(),
        n <= t.len(),
        forall|j: int| 0 <= j < n ==> s[j] == t[j],
        value_span_at(s, i) is Some,
        value_span_at(s, i)->0.end < n,
    ensures
        value_span_at(t, i) == value_span_at(s, i),
{
    let a = skip_blanks(s, i);
    let b = skip_blanks(s, a + 7);
    let c = skip_blanks(s, b + 1);
    let v = c + 1;
    let d = next_quote(s, v);
    lemma_skip_blanks(s, i);
    lemma_skip_blanks(s, a + 7);
    lemma_skip_blanks(s, b + 1);
    lemma_next_quote(s, v);
    lemma_skip_blanks_is(t, i, a);
    assert(t.subrange(a, a + 7) == s.subrange(a, a + 7));
    lemma_skip_blanks_is(t, a + 7, b);
    lemma_skip_blanks_is(t, b + 1, c);
    lemma_next_quote_is(t, v, d);
}

/// What `span_from` finds is the value of the first assignment at or after
/// `i`.
proof fn lemma_span_from(s: Seq<char>, i: int)
    requires
        0 <= i,
    ensures
        match span_from(s, i) {
            Some(span) => exists|at: int|
                i <= at < s.len() && #[trigger] assignment_at(s, at) && value_span_at(s, at)
                    == Some(span) && forall|j: int| i <= j < at ==> !assignment_at(s, j),
            None => forall|j: int| i <= j < s.len() ==> !assignment_at(s, j),
        },
    decreases s.len() - i,
{
    if i < s.len() {
        if assignment_at(s, i) {
        } else {
            lemma_span_from(s, i + 1);
            match span_from(s, i + 1) {
                Some(span) => {
                    let at = choose|at: int|
                        i + 1 <= at < s.len() && #[trigger] assignment_at(s, at) && value_span_at(
                            s,
                            at,
                        ) == Some(span) && forall|j: int| i + 1 <= j < at ==> !assignment_at(s, j);
                    assert forall|j: int| i <= j < at implies !assignment_at(s, j) by {}
                },
                None => {},
            }
        }
    }
}

/// The first assignment at or after `i` fixes what `span_from` finds.
proof fn lemma_span_from_is(s: Seq<char>, i: int, at: int)
    requires
        0 <= i <= at < s.len(),
        assignment_at(s, at),
        forall|j: int| i <= j < at ==> !assignment_at(s, j),
    ensures
        span_from(s, i) == value_span_at(s, at),
    decreases at - i,
{
    if i < at {
        lemma_span_from_is(s, i + 1, at);
    }
}

/// The literal lies inside the text, between two double quotes, and holds
/// none itself.
pub proof fn lemma_literal_span(s: Seq<char>)
    requires
        literal_span(s) is Some,
    ensures
        0 < literal_span(s)->0.start < literal_span(s)->0.end < s.len(),
        s[literal_span(s)->0.start - 1] == '"',
        s[literal_span(s)->0.end] == '"',
        fits_literal(literal(s)->0),
{
    lemma_span_from(s, 0);
    let span = literal_span(s)->0;
    let at = choose|at: int|
        0 <= at < s.len() && #[trigger] assignment_at(s, at) && value_span_at(s, at) == Some(span)
            && forall|j: int| 0 <= j < at ==> !assignment_at(s, j);
    lemma_value_start(s, at);
    lemma_next_quote(s, span.start);
}

/// Replacing the literal changes nothing else: what stands before the
/// literal and what stands after it are what they were.
pub proof fn lemma_replacement_keeps_the_rest(s: Seq<char>, text: Seq<char>)
    requires
        literal_span(s) is Some,
    ensures
        with_literal(s, text) is Some,
        with_literal(s, text)->0.len() == s.len() - literal(s)->0.len() + text.len(),
        with_literal(s, text)->0.take(literal_span(s)->0.start) == s.take(literal_span(s)->0.start),
        with_literal(s, text)->0.skip(literal_span(s)->0.start + text.len()) == s.skip(
            literal_span(s)->0.end,
        ),
        with_literal(s, text)->0.subrange(
            literal_span(s)->0.start,
            literal_span(s)->0.start + text.len(),
        ) == text,
{
    lemma_literal_span(s);
}

/// The text `s` with the stretch from `a` to `b` replaced by `text`.
spec fn spliced(s: Seq<char>, a: int, b: int, text: Seq<char>) -> Seq<char> {
    s.take(a) + text + s.skip(b)
}

proof fn lemma_spliced(s: Seq<char>, a: int, b: int, text: Seq<char>)
    requires
        0 <= a <= b <= s.len(),
    ensures
        spliced(s, a, b, text).len() == a + text.len() + (s.len() - b),
        forall|j: int| 0 <= j < a ==> #[trigger] spliced(s, a, b, text)[j] == s[j],
        forall|j: int|
            a <= j < a + text.len() ==> #[trigger] spliced(s, a, b, text)[j] == text[j - a],
        forall|j: int|
            a + text.len() <= j < spliced(s, a, b, text).len() ==> #[trigger] spliced(
                s,
                a,
                b,
                text,
            )[j] == s[j - text.len() - a + b],
{
}

/// An assignment whose value is replaced is still an assignment, with the
/// new value.
proof fn lemma_assignment_kept(s: Seq<char>, at: int, text: Seq<char>)
    requires
        0 <= at,
        value_span_at(s, at) is Some,
        fits_literal(text),
    ensures
        value_span_at(
            spliced(s, value_span_at(s, at)->0.start, value_span_at(s, at)->0.end, text),
            at,
        ) == Some(
            Span {
                start: value_span_at(s, at)->0.start,
                end: value_span_at(s, at)->0.start + text.len(),
            },
        ),
{
    let a = value_span_at(s, at)->0.start;
    let b = value_span_at(s, at)->0.end;
    let t = spliced(s, a, b, text);
    let a0 = skip_blanks(s, at);
    let b0 = skip_blanks(s, a0 + 7);
    let c0 = skip_blanks(s, b0 + 1);
    lemma_skip_blanks(s, at);
    lemma_skip_blanks(s, a0 + 7);
    lemma_skip_blanks(s, b0 + 1);
    lemma_next_quote(s, a);
    lemma_spliced(s, a, b, text);
    assert(a == c0 + 1);
    assert forall|j: int| at <= j < a0 implies is_blank(#[trigger] t[j]) by {
        assert(t[j] == s[j]);
    }
    assert(t[a0] == s[a0]);
    lemma_skip_blanks_is(t, at, a0);
    assert(t.subrange(a0, a0 + 7) == s.subrange(a0, a0 + 7)) by {
        assert forall|k: int| 0 <= k < 7 implies #[trigger] t.subrange(a0, a0 + 7)[k]
            == s.subrange(a0, a0 + 7)[k] by {
            assert(t[a0 + k] == s[a0 + k]);
        }
    }
    assert forall|j: int| a0 + 7 <= j < b0 implies is_blank(#[trigger] t[j]) by {
        assert(t[j] == s[j]);
    }
    assert(t[b0] == s[b0]);
    lemma_skip_blanks_is(t, a0 + 7, b0);
    assert forall|j: int| b0 + 1 <= j < c0 implies is_blank(#[trigger] t[j]) by {
        assert(t[j] == s[j]);
    }
    assert(t[c0] == s[c0]);
    lemma_skip_blanks_is(t, b0 + 1, c0);
    assert(value_start(t, at) == Some(a));
    assert forall|j: int| a <= j < a + text.len() implies #[trigger] t[j] != '"' by {
        assert(t[j] == text[j - a]);
    }
    assert(t[a + text.len()] == s[b]);
    lemma_next_quote_is(t, a, a + text.len());
}

/// Replacing the value of the first assignment brings no assignment to an
/// earlier line.
proof fn lemma_no_earlier_assignment(s: Seq<char>, at: int, text: Seq<char>, j: int)
    requires
        0 <= j < at < s.len(),
        assignment_at(s, at),
        !assignment_at(s, j),
    ensures
        !assignment_at(
            spliced(s, value_span_at(s, at)->0.start, value_span_at(s, at)->0.end, text),
            j,
        ),
{
    let a = value_span_at(s, at)->0.start;
    let b = value_span_at(s, at)->0.end;
    let t = spliced(s, a, b, text);
    lemma_value_start(s, at);
    lemma_next_quote(s, a);
    lemma_spliced(s, a, b, text);
    if assignment_at(t, j) {
        assert(is_line_start(s, j)) by {
            if j > 0 {
                assert(t[j - 1] == s[j - 1]);
            }
        }
        lemma_value_start(t, j);
        let v = value_start(t, j)->0;
        // The header ends before the line feed that precedes `at`.
        assert(t[at - 1] == s[at - 1]);
        assert(v <= at - 1) by {
            if v > at - 1 {
                assert(t[at - 1] != '\n');
            }
        }
        lemma_next_quote(t, v);
        let d = next_quote(t, v);
        assert(t[a - 1] == s[a - 1]);
        assert(d <= a - 1) by {
            if d > a - 1 {
                assert(t[a - 1] != '"');
            }
        }
        assert forall|k: int| 0 <= k < a implies t[k] == s[k] by {}
        lemma_span_is_local(t, s, j, a);
        assert(assignment_at(s, j));
    }
}

/// After the literal is replaced by `text`, the literal of the result is
/// `text`, and it stands where the old one began.
pub proof fn lemma_replaced_literal_is_found(s: Seq<char>, text: Seq<char>)
    requires
        literal_span(s) is Some,
        fits_literal(text),
    ensures
        with_literal(s, text) is Some,
        literal_span(with_literal(s, text)->0) == Some(
            Span { start: literal_span(s)->0.start, end: literal_span(s)->0.start + text.len() },
        ),
        literal(with_literal(s, text)->0) == Some(text),
{
    lemma_span_from(s, 0);
    let span = literal_span(s)->0;
    let a = span.start;
    let b = span.end;
    let at = choose|at: int|
        0 <= at < s.len() && #[trigger] assignment_at(s, at) && value_span_at(s, at) == Some(span)
            && forall|j: int| 0 <= j < at ==> !assignment_at(s, j);
    lemma_value_start(s, at);
    lemma_next_quote(s, a);
    let t = spliced(s, a, b, text);
    lemma_spliced(s, a, b, text);
    lemma_assignment_kept(s, at, text);
    assert(is_line_start(t, at)) by {
        if at > 0 {
            assert(t[at - 1] == s[at - 1]);
        }
    }
    assert forall|j: int| 0 <= j < at implies !assignment_at(t, j) by {
        lemma_no_earlier_assignment(s, at, text, j);
    }
    lemma_span_from_is(t, 0, at);
    assert(t.subrange(a, a + text.len()) == text);
}

/// The first position at or after `i` that holds no blank.
fn skip_blanks_from(v: &Vec<char>, i: usize) -> (r: usize)
    requires
        i <= v.len(),
    ensures
        r == skip_blanks(v@, i as int),
        i <= r <= v.len(),
{
    let mut j: usize = i;
    while j < v.len() && (v[j] == ' ' || v[j] == '\t')
        invariant
            i <= j <= v.len(),
            skip_blanks(v@, i as int) == skip_blanks(v@, j as int),
        decreases v.len() - j,
    {
        j += 1;
    }
    j
}

/// The first position at or after `i` that holds a double quote.
fn next_quote_from(v: &Vec<char>, i: usize) -> (r: usize)
    requires
        i <= v.len(),
    ensures
        r == next_quote(v@, i as int),
        i <= r <= v.len(),
{
    let mut j: usize = i;
    while j < v.len() && v[j] != '"'
        invariant
            i <= j <= v.len(),
            next_quote(v@, i as int) == next_quote(v@, j as int),
        decreases v.len() - j,
    {
        j += 1;
    }
    j
}

/// The value of the assignment that starts at `i`, if one does.
fn value_span_from(v: &Vec<char>, key: &Vec<char>, i: usize) -> (r: Option<(usize, usize)>)
    requires
        i <= v.len(),
        key@ == self::key(),
    ensures
        match r {
            Some(span) => value_span_at(v@, i as int) == Some(
                Span { start: span.0 as int, end: span.1 as int },
            ) && i < span.0 < span.1 < v.len(),
            None => value_span_at(v@, i as int) is None,
        },
{
    let a = skip_blanks_from(v, i);
    if !matches_at(v, key, a) {
        return None;
    }
    let b = skip_blanks_from(v, a + 7);
    if !(b < v.len() && v[b] == '=') {
        return None;
    }
    let c = skip_blanks_from(v, b + 1);
    if !(c < v.len() && v[c] == '"') {
        return None;
    }
    let d = next_quote_from(v, c + 1);
    if c + 1 < d && d < v.len() {
        Some((c + 1, d))
    } else {
        None
    }
}

/// The key as a list of characters.
fn key_chars() -> (r: Vec<char>)
    ensures
        r@ == key(),
{
    let r = chars_of("version");
    proof {
        reveal_strlit("version");
        assert("version"@ == key());
    }
    r
}

/// Where the version literal begins and ends.
pub fn find_literal(v: &Vec<char>) -> (r: Option<(usize, usize)>)
    ensures
        match r {
            Some(span) => literal_span(v@) == Some(
                Span { start: span.0 as int, end: span.1 as int },
            ) && 0 < span.0 < span.1 < v.len(),
            None => literal_span(v@) is None,
        },
{
    let key = key_chars();
    let mut i: usize = 0;
    while i < v.len()
        invariant
            i <= v.len(),
            key@ == self::key(),
            span_from(v@, 0) == span_from(v@, i as int),
        decreases v.len() - i,
    {
        if i == 0 || v[i - 1] == '\n' {
            match value_span_from(v, &key, i) {
                Some(span) => {
                    assert(assignment_at(v@, i as int));
                    return Some(span);
                },
                None => {},
            }
        }
        assert(!assignment_at(v@, i as int));
        i += 1;
    }
    None
}

/// The version literal of a keyed-TOML style text.
pub fn read_literal(content: &str) -> (r: Option<String>)
    ensures
        opt_text(r) == literal(content@),
{
    let v = chars_of(content);
    match find_literal(&v) {
        Some(span) => Some(substring(&v, span.0, span.1)),
        None => None,
    }
}

/// A keyed-TOML style text with its version literal replaced by `text`.
/// Nothing else changes.
pub fn replace_literal(content: &str, text: &str) -> (r: Option<String>)
    ensures
        opt_text(r) == with_literal(content@, text@),
{
    let v = chars_of(content);
    match find_literal(&v) {
        Some(span) => {
            let mut out = substring(&v, 0, span.0);
            out.append(text);
            out.append(substring(&v, span.1, v.len()).as_str());
            Some(out)
        },
        None => None,
    }
}

} // verus!
