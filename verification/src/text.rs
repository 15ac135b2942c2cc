//! Character-level helpers shared by the string-processing parts of the crate.
//!
//! Strings are modelled by their sequence of characters; every helper states
//! its result over that model.

use vstd::prelude::*;

verus! {

/// `pat` occurs in `s` at position `at`.
pub open spec fn occurs_at(s: Seq<char>, pat: Seq<char>, at: int) -> bool {
    &&& 0 <= at
    &&& at + pat.len() <= s.len()
    &&& s.subrange(at, at + pat.len()) == pat
}

/// `at` is the first position at or after `from` where `pat` occurs in `s`.
pub open spec fn first_occurrence(s: Seq<char>, pat: Seq<char>, from: int, at: int) -> bool {
    &&& from <= at
    &&& occurs_at(s, pat, at)
    &&& forall|j: int| from <= j < at ==> !occurs_at(s, pat, j)
}

/// `pat` occurs nowhere in `s` at or after `from`.
pub open spec fn no_occurrence(s: Seq<char>, pat: Seq<char>, from: int) -> bool {
    forall|j: int| from <= j ==> !occurs_at(s, pat, j)
}

/// `s` begins with `prefix`.
pub open spec fn has_prefix(s: Seq<char>, prefix: Seq<char>) -> bool {
    occurs_at(s, prefix, 0)
}

/// `s` ends with `suffix`.
pub open spec fn has_suffix(s: Seq<char>, suffix: Seq<char>) -> bool {
    occurs_at(s, suffix, s.len() - suffix.len())
}

/// The decimal digit for a value below ten.
pub open spec fn digit_char(d: nat) -> char {
    if d == 0 {
        '0'
    } else if d == 1 {
        '1'
    } else if d == 2 {
        '2'
    } else if d == 3 {
        '3'
    } else if d == 4 {
        '4'
    } else if d == 5 {
        '5'
    } else if d == 6 {
        '6'
    } else if d == 7 {
        '7'
    } else if d == 8 {
        '8'
    } else {
        '9'
    }
}

/// The decimal representation of `n`, without leading zeros.
pub open spec fn decimal(n: nat) -> Seq<char>
    decreases n,
{
    if n < 10 {
        seq![digit_char(n)]
    } else {
        decimal(n / 10).push(digit_char(n % 10))
    }
}

/// The characters of a string slice, in order.
pub fn chars_of(s: &str) -> (v: Vec<char>)
    ensures
        v@ == s@,
{
    let mut v: Vec<char> = Vec::new();
    for c in it: s.chars()
        invariant
            v@ == it.seq().take(it.index() as int),
            it.seq() == s@,
    {
        v.push(c);
    }
    v
}

/// Appends one character to a string. Trusted: `String::push` adds exactly
/// the given character at the end and leaves the rest untouched.
#[verifier::external_body]
fn push_char(s: &mut String, c: char)
    ensures
        final(s)@ == old(s)@.push(c),
{
    s.push(c)
}

/// The string made of `v[from..to]`.
pub fn substring(v: &Vec<char>, from: usize, to: usize) -> (s: String)
    requires
        from <= to <= v.len(),
    ensures
        s@ == v@.subrange(from as int, to as int),
{
    let mut s = String::new();
    let mut i: usize = from;
    while i < to
        invariant
            from <= i <= to <= v.len(),
            s@ == v@.subrange(from as int, i as int),
        decreases to - i,
    {
        push_char(&mut s, v[i]);
        i += 1;
    }
    s
}

/// The string made of all of `v`.
pub fn string_of(v: &Vec<char>) -> (s: String)
    ensures
        s@ == v@,
{
    let s = substring(v, 0, v.len());
    assert(v@.subrange(0, v@.len() as int) == v@);
    s
}

/// Whether two string slices hold the same characters.
pub fn str_eq(a: &str, b: &str) -> (r: bool)
    ensures
        r == (a@ == b@),
{
    let x = String::from_str(a);
    let y = String::from_str(b);
    x == y
}

/// Whether `pat` occurs in `v` at position `at`.
pub fn matches_at(v: &Vec<char>, pat: &Vec<char>, at: usize) -> (r: bool)
    ensures
        r == occurs_at(v@, pat@, at as int),
{
    if pat.len() > v.len() || at > v.len() - pat.len() {
        return false;
    }
    let mut i: usize = 0;
    while i < pat.len()
        invariant
            i <= pat.len(),
            at + pat.len() <= v.len(),
            v@.subrange(at as int, at + i) == pat@.take(i as int),
        decreases pat.len() - i,
    {
        if v[at + i] != pat[i] {
            assert(v@.subrange(at as int, at + pat.len())[i as int] != pat@[i as int]);
            return false;
        }
        assert(v@.subrange(at as int, at + i + 1) == v@.subrange(at as int, at + i).push(
            v@[at + i],
        ));
        assert(pat@.take(i + 1) == pat@.take(i as int).push(pat@[i as int]));
        i += 1;
    }
    assert(pat@.take(pat@.len() as int) == pat@);
    true
}

/// Whether `s` begins with `prefix`.
pub fn starts_with(s: &str, prefix: &str) -> (r: bool)
    ensures
        r == has_prefix(s@, prefix@),
{
    let v = chars_of(s);
    let p = chars_of(prefix);
    matches_at(&v, &p, 0)
}

/// What follows `prefix` in `s`, when `s` begins with it.
pub fn strip_prefix(s: &str, prefix: &str) -> (r: Option<String>)
    ensures
        has_prefix(s@, prefix@) ==> r is Some && r->0@ == s@.skip(prefix@.len() as int),
        !has_prefix(s@, prefix@) ==> r is None,
{
    let v = chars_of(s);
    let p = chars_of(prefix);
    if matches_at(&v, &p, 0) {
        Some(substring(&v, p.len(), v.len()))
    } else {
        None
    }
}

/// The first position at or after `from` where `pat` occurs in `v`.
pub fn find_from(v: &Vec<char>, pat: &Vec<char>, from: usize) -> (r: Option<usize>)
    ensures
        match r {
            Some(at) => first_occurrence(v@, pat@, from as int, at as int),
            None => no_occurrence(v@, pat@, from as int),
        },
{
    if from > v.len() {
        return None;
    }
    let mut i: usize = from;
    loop
        invariant
            from <= i <= v.len(),
            forall|j: int| from <= j < i ==> !occurs_at(v@, pat@, j),
        decreases v.len() - i,
    {
        if matches_at(v, pat, i) {
            return Some(i);
        }
        if i == v.len() {
            return None;
        }
        i += 1;
    }
}

/// The decimal digits of `n`.
pub fn u64_to_string(n: u64) -> (s: String)
    ensures
        s@ == decimal(n as nat),
{
    let mut digits: Vec<char> = Vec::new();
    let mut rest: u64 = n;
    // Collect the digits from the least significant one upwards.
    while rest >= 10
        invariant
            decimal(n as nat) == decimal(rest as nat) + digits@.reverse(),
        decreases rest,
    {
        let d = digit_of((rest % 10) as u8);
        proof {
            let before = digits@;
            let after = before.push(d);
            assert(after.reverse() == seq![d] + before.reverse());
            assert(decimal(rest as nat) == decimal((rest / 10) as nat).push(d));
            assert(decimal((rest / 10) as nat).push(d) + before.reverse() == decimal(
                (rest / 10) as nat,
            ) + after.reverse());
        }
        digits.push(d);
        rest = rest / 10;
    }
    let last = digit_of(rest as u8);
    proof {
        let before = digits@;
        let after = before.push(last);
        assert(after.reverse() == seq![last] + before.reverse());
        assert(decimal(rest as nat) == seq![last]);
    }
    digits.push(last);
    let mut out: Vec<char> = Vec::new();
    let mut i: usize = digits.len();
    while i > 0
        invariant
            i <= digits.len(),
            out@ == digits@.reverse().take(digits.len() - i),
        decreases i,
    {
        i -= 1;
        out.push(digits[i]);
        assert(digits@.reverse().take(digits.len() - i) == digits@.reverse().take(
            digits.len() - i - 1,
        ).push(digits@[i as int]));
    }
    assert(digits@.reverse().take(digits@.len() as int) == digits@.reverse());
    string_of(&out)
}

/// The character for one decimal digit.
fn digit_of(d: u8) -> (c: char)
    requires
        d < 10,
    ensures
        c == digit_char(d as nat),
{
    if d == 0 {
        '0'
    } else if d == 1 {
        '1'
    } else if d == 2 {
        '2'
    } else if d == 3 {
        '3'
    } else if d == 4 {
        '4'
    } else if d == 5 {
        '5'
    } else if d == 6 {
        '6'
    } else if d == 7 {
        '7'
    } else if d == 8 {
        '8'
    } else {
        '9'
    }
}

/// The text of an optional string.
pub open spec fn opt_text(o: Option<String>) -> Option<Seq<char>> {
    match o {
        Some(s) => Some(s@),
        None => None,
    }
}

/// The texts of a list of strings.
pub open spec fn texts(list: Seq<String>) -> Seq<Seq<char>> {
    list.map_values(|s: String| s@)
}

/// The texts of a list of key/value pairs.
pub open spec fn pair_texts(list: Seq<(String, String)>) -> Seq<(Seq<char>, Seq<char>)> {
    list.map_values(|p: (String, String)| (p.0@, p.1@))
}

/// `t` is one of the texts in `list`.
pub open spec fn lists(list: Seq<Seq<char>>, t: Seq<char>) -> bool {
    exists|i: int| 0 <= i < list.len() && list[i] == t
}

/// Whether `t` is one of the strings in `list`.
pub fn contains_text(list: &Vec<String>, t: &str) -> (r: bool)
    ensures
        r == lists(texts(list@), t@),
{
    let mut i: usize = 0;
    while i < list.len()
        invariant
            i <= list.len(),
            forall|j: int| 0 <= j < i ==> texts(list@)[j] != t@,
        decreases list.len() - i,
    {
        if str_eq(list[i].as_str(), t) {
            assert(texts(list@)[i as int] == t@);
            return true;
        }
        i += 1;
    }
    false
}

/// A copy of an optional string.
pub fn clone_opt(o: &Option<String>) -> (r: Option<String>)
    ensures
        r == *o,
{
    match o {
        Some(s) => Some(s.clone()),
        None => None,
    }
}

/// A copy of a list of strings.
pub fn clone_texts(list: &Vec<String>) -> (r: Vec<String>)
    ensures
        r@ == list@,
{
    let mut out: Vec<String> = Vec::new();
    let mut i: usize = 0;
    while i < list.len()
        invariant
            i <= list.len(),
            out@ == list@.take(i as int),
        decreases list.len() - i,
    {
        out.push(list[i].clone());
        i += 1;
    }
    assert(list@.take(list@.len() as int) == list@);
    out
}

/// The decimal representation of an integer, with `-` before a negative one.
pub open spec fn signed_decimal(n: int) -> Seq<char> {
    if n < 0 {
        seq!['-'] + decimal((-n) as nat)
    } else {
        decimal(n as nat)
    }
}

/// The decimal digits of `n`, with a sign where it is negative.
pub fn i64_to_string(n: i64) -> (s: String)
    ensures
        s@ == signed_decimal(n as int),
{
    if n < 0 {
        let magnitude: u64 = if n == i64::MIN {
            9223372036854775808u64
        } else {
            (-n) as u64
        };
        let mut out = String::from_str("-");
        proof {
            reveal_strlit("-");
            assert("-"@ == seq!['-']);
        }
        out.append(u64_to_string(magnitude).as_str());
        out
    } else {
        u64_to_string(n as u64)
    }
}

/// The texts of `parts` with `sep` between each two neighbours.
pub open spec fn joined_with(parts: Seq<Seq<char>>, sep: Seq<char>) -> Seq<char>
    decreases parts.len(),
{
    if parts.len() == 0 {
        Seq::empty()
    } else if parts.len() == 1 {
        parts[0]
    } else {
        joined_with(parts.drop_last(), sep) + sep + parts.last()
    }
}

/// The views of a list of string literals.
pub open spec fn literal_texts(list: Seq<&'static str>) -> Seq<Seq<char>> {
    list.map_values(|s: &'static str| s@)
}

/// Joins string literals with a separator.
pub fn join_literals(parts: &Vec<&'static str>, sep: &str) -> (r: String)
    ensures
        r@ == joined_with(literal_texts(parts@), sep@),
{
    let mut out = String::new();
    let mut i: usize = 0;
    while i < parts.len()
        invariant
            i <= parts.len(),
            out@ == joined_with(literal_texts(parts@).take(i as int), sep@),
        decreases parts.len() - i,
    {
        let ghost upto = literal_texts(parts@).take(i + 1);
        assert(upto.drop_last() == literal_texts(parts@).take(i as int));
        assert(upto.last() == parts@[i as int]@);
        if i > 0 {
            out.append(sep);
        } else {
            assert(upto.len() == 1);
            assert(out@ == Seq::<char>::empty());
        }
        out.append(parts[i]);
        i += 1;
    }
    assert(literal_texts(parts@).take(parts@.len() as int) == literal_texts(parts@));
    out
}

/// Joins strings with a separator.
pub fn join_texts(parts: &Vec<String>, sep: &str) -> (r: String)
    ensures
        r@ == joined_with(texts(parts@), sep@),
{
    let mut out = String::new();
    let mut i: usize = 0;
    while i < parts.len()
        invariant
            i <= parts.len(),
            out@ == joined_with(texts(parts@).take(i as int), sep@),
        decreases parts.len() - i,
    {
        let ghost upto = texts(parts@).take(i + 1);
        assert(upto.drop_last() == texts(parts@).take(i as int));
        assert(upto.last() == parts@[i as int]@);
        if i > 0 {
            out.append(sep);
        } else {
            assert(upto.len() == 1);
            assert(out@ == Seq::<char>::empty());
        }
        out.append(parts[i].as_str());
        i += 1;
    }
    assert(texts(parts@).take(parts@.len() as int) == texts(parts@));
    out
}

/// Whether `t` is one of the literals in `list`.
pub fn contains_literal(list: &Vec<&'static str>, t: &str) -> (r: bool)
    ensures
        r == lists(literal_texts(list@), t@),
{
    let mut i: usize = 0;
    while i < list.len()
        invariant
            i <= list.len(),
            forall|j: int| 0 <= j < i ==> literal_texts(list@)[j] != t@,
        decreases list.len() - i,
    {
        if str_eq(list[i], t) {
            assert(literal_texts(list@)[i as int] == t@);
            return true;
        }
        i += 1;
    }
    false
}

} // verus!
