//! Small verified helpers for working with `String` values: conversion to
//! and from character vectors, comparisons by content, and the
//! lexicographic order used when versions are compared as text.

use vstd::prelude::*;
use vstd::string::*;

verus! {

/// `String::push` of the standard library: the character is appended to
/// the end of the string and nothing else changes.
pub assume_specification[ String::push ](s: &mut String, ch: char)
    ensures
        final(s)@ == old(s)@.push(ch),
;

/// The content of an optional string, as a sequence of characters.
pub open spec fn opt_text(o: Option<String>) -> Option<Seq<char>> {
    match o {
        Some(s) => Some(s@),
        None => None,
    }
}

/// An optional text, or the empty text in its place.
pub open spec fn text_or_empty(o: Option<Seq<char>>) -> Seq<char> {
    match o {
        Some(t) => t,
        None => Seq::empty(),
    }
}

/// The contents of a list of strings.
pub open spec fn texts(v: Seq<String>) -> Seq<Seq<char>> {
    Seq::new(v.len(), |i: int| v[i]@)
}

/// Whether some element of `v` has the content `s`.
pub open spec fn has_text(v: Seq<String>, s: Seq<char>) -> bool {
    exists|i: int| 0 <= i < v.len() && (#[trigger] v[i])@ == s
}

/// The characters of a string, in order.
pub fn chars_of(s: &str) -> (v: Vec<char>)
    ensures
        v@ == s@,
{
    broadcast use vstd::string::group_string_axioms;

    let mut out: Vec<char> = Vec::new();
    for c in it: s.chars()
        invariant
            it.seq() == s@,
            out@ == s@.subrange(0, it.index()),
    {
        out.push(c);
    }
    assert(out@ == s@);
    out
}

/// The string made of the given characters, in order.
pub fn text_of(v: &Vec<char>) -> (s: String)
    ensures
        s@ == v@,
{
    let mut out = String::new();
    let mut i: usize = 0;
    while i < v.len()
        invariant
            i <= v.len(),
            out@ == v@.subrange(0, i as int),
        decreases v.len() - i,
    {
        out.push(v[i]);
        i += 1;
    }
    assert(out@ == v@);
    out
}

/// Whether two strings have the same content.
pub fn same_text(a: &str, b: &str) -> (r: bool)
    ensures
        r == (a@ == b@),
{
    let x = a.to_owned();
    let y = b.to_owned();
    x == y
}

/// Whether an optional string is present and has the content of `s`.
pub fn opt_is(o: &Option<String>, s: &str) -> (r: bool)
    ensures
        r == (opt_text(*o) == Some(s@)),
{
    match o {
        Some(x) => same_text(x.as_str(), s),
        None => false,
    }
}

/// An optional text, or the empty text in its place.
pub fn or_empty(o: &Option<String>) -> (r: String)
    ensures
        r@ == text_or_empty(opt_text(*o)),
{
    match o {
        Some(t) => t.clone(),
        None => String::new(),
    }
}

/// Whether `v` holds a string with the content of `s`.
pub fn contains_text(v: &Vec<String>, s: &str) -> (r: bool)
    ensures
        r == has_text(v@, s@),
{
    let mut i: usize = 0;
    while i < v.len()
        invariant
            i <= v.len(),
            forall|j: int| 0 <= j < i ==> (#[trigger] v@[j])@ != s@,
        decreases v.len() - i,
    {
        if same_text(v[i].as_str(), s) {
            return true;
        }
        i += 1;
    }
    false
}

/// One of the digits `0` to `9`.
pub open spec fn is_digit(c: char) -> bool {
    '0' <= c && c <= '9'
}

/// The number that a text of digits is the decimal notation of.
pub open spec fn digits_value(digits: Seq<char>) -> int
    decreases digits.len(),
{
    if digits.len() == 0 {
        0
    } else {
        digits_value(digits.drop_last()) * 10 + (digits.last() as int - '0' as int)
    }
}

/// The digits of a decimal notation: the text without the sign that it
/// may start with.
pub open spec fn digits_of(text: Seq<char>) -> Seq<char> {
    if text.len() > 0 && (text[0] == '-' || text[0] == '+') {
        text.skip(1)
    } else {
        text
    }
}

/// The number that a decimal notation denotes, before it is asked whether
/// the number fits.
pub open spec fn decimal_value(text: Seq<char>) -> int {
    if text.len() > 0 && text[0] == '-' {
        -digits_value(digits_of(text))
    } else {
        digits_value(digits_of(text))
    }
}

/// The number that a text is the decimal notation of, if it is one: an
/// optional sign `+` or `-`, then one digit at least and nothing but
/// digits, for a number from the least to the greatest `i64`.
pub open spec fn parsed_i64(text: Seq<char>) -> Option<i64> {
    let digits = digits_of(text);
    if digits.len() == 0 || !(forall|i: int| 0 <= i < digits.len() ==> is_digit(#[trigger] digits[i]))
        || decimal_value(text) < i64::MIN || decimal_value(text) > i64::MAX {
        None
    } else {
        Some(decimal_value(text) as i64)
    }
}

/// `str::parse` of the standard library at the type `i64`, which reads
/// decimal notation as `parsed_i64` says: a sign is optional, any other
/// character that is no digit is an error, and so are an empty text, a
/// sign alone and a number that does not fit.
#[verifier::external_body]
pub(crate) fn parse_i64(text: &str) -> (r: Option<i64>)
    ensures
        r == parsed_i64(text@),
{
    text.parse::<i64>().ok()
}

/// Whether `part` occurs in `whole` at position `k`.
pub open spec fn occurs_at(whole: Seq<char>, part: Seq<char>, k: int) -> bool {
    0 <= k && k + part.len() <= whole.len() && whole.subrange(k, k + part.len()) == part
}

/// Whether `part` occurs somewhere in `whole`.
pub open spec fn has_subtext(whole: Seq<char>, part: Seq<char>) -> bool {
    exists|k: int| occurs_at(whole, part, k)
}

/// Whether `part` occurs in `whole` at position `k`.
fn matches_at(whole: &Vec<char>, part: &Vec<char>, k: usize) -> (r: bool)
    requires
        k + part.len() <= whole.len(),
    ensures
        r == occurs_at(whole@, part@, k as int),
{
    let mut j: usize = 0;
    while j < part.len()
        invariant
            j <= part.len(),
            k + part.len() <= whole.len(),
            forall|m: int| 0 <= m < j ==> whole@[k + m] == part@[m],
        decreases part.len() - j,
    {
        if whole[k + j] != part[j] {
            proof {
                let sub = whole@.subrange(k as int, k + part.len());
                assert(sub[j as int] == whole@[k + j]);
            }
            return false;
        }
        j += 1;
    }
    assert(whole@.subrange(k as int, k + part.len()) =~= part@);
    true
}

/// Whether `part` occurs somewhere in `whole`.
pub fn contains_subtext(whole: &str, part: &str) -> (r: bool)
    ensures
        r == has_subtext(whole@, part@),
{
    let w = chars_of(whole);
    let p = chars_of(part);
    if p.len() > w.len() {
        return false;
    }
    let last: usize = w.len() - p.len();
    let mut k: usize = 0;
    while k < last
        invariant
            k <= last,
            last == w.len() - p.len(),
            p.len() <= w.len(),
            w@ == whole@,
            p@ == part@,
            forall|m: int| 0 <= m < k ==> !occurs_at(whole@, part@, m),
        decreases last - k,
    {
        if matches_at(&w, &p, k) {
            return true;
        }
        k += 1;
    }
    matches_at(&w, &p, last)
}

/// A copy of a list of strings.
pub fn copy_texts(v: &Vec<String>) -> (r: Vec<String>)
    ensures
        r@ == v@,
{
    v.clone()
}

/// Lexicographic comparison of two texts from position `i` on, given that
/// they agree before it: the first differing character decides, and a text
/// that ends first comes first.
pub open spec fn text_le_from(a: Seq<char>, b: Seq<char>, i: int) -> bool
    decreases a.len() - i,
{
    if i < 0 || i >= a.len() {
        true
    } else if i >= b.len() {
        false
    } else if a[i] == b[i] {
        text_le_from(a, b, i + 1)
    } else {
        a[i] < b[i]
    }
}

/// `a` comes before `b`, or equals it, in lexicographic order by
/// character code.
pub open spec fn text_le(a: Seq<char>, b: Seq<char>) -> bool {
    text_le_from(a, b, 0)
}

/// Whether `a` comes before `b`, or equals it, in lexicographic order.
pub fn text_before_or_equal(a: &str, b: &str) -> (r: bool)
    ensures
        r == text_le(a@, b@),
{
    let x = chars_of(a);
    let y = chars_of(b);
    let mut i: usize = 0;
    while i < x.len()
        invariant
            i <= x.len(),
            x@ == a@,
            y@ == b@,
            text_le(a@, b@) == text_le_from(a@, b@, i as int),
        decreases x.len() - i,
    {
        if i >= y.len() {
            return false;
        }
        if x[i] != y[i] {
            return x[i] < y[i];
        }
        i += 1;
    }
    true
}

/// From a position on which the texts agree up to, each text is at most
/// itself.
pub proof fn lemma_text_le_reflexive(a: Seq<char>, i: int)
    ensures
        text_le_from(a, a, i),
    decreases a.len() - i,
{
    if 0 <= i < a.len() {
        lemma_text_le_reflexive(a, i + 1);
    }
}

/// Of two texts that agree before `i`, one is at most the other.
pub proof fn lemma_text_le_total(a: Seq<char>, b: Seq<char>, i: int)
    requires
        0 <= i,
    ensures
        text_le_from(a, b, i) || text_le_from(b, a, i),
    decreases a.len() - i,
{
    if i < a.len() && i < b.len() && a[i] == b[i] {
        lemma_text_le_total(a, b, i + 1);
    }
}

/// The order is transitive.
pub proof fn lemma_text_le_transitive(a: Seq<char>, b: Seq<char>, c: Seq<char>, i: int)
    requires
        0 <= i,
        text_le_from(a, b, i),
        text_le_from(b, c, i),
    ensures
        text_le_from(a, c, i),
    decreases a.len() - i,
{
    if i < a.len() {
        if a[i] == b[i] && b[i] == c[i] {
            lemma_text_le_transitive(a, b, c, i + 1);
        }
    }
}

/// Two texts that agree before `i` and are each at most the other are the
/// same text.
pub proof fn lemma_text_le_antisymmetric(a: Seq<char>, b: Seq<char>, i: int)
    requires
        0 <= i <= a.len(),
        i <= b.len(),
        a.subrange(0, i) == b.subrange(0, i),
        text_le_from(a, b, i),
        text_le_from(b, a, i),
    ensures
        a == b,
    decreases a.len() - i,
{
    if i < a.len() {
        assert(a.subrange(0, i + 1) == a.subrange(0, i).push(a[i]));
        assert(b.subrange(0, i + 1) == b.subrange(0, i).push(b[i]));
        lemma_text_le_antisymmetric(a, b, i + 1);
    } else {
        assert(a == a.subrange(0, i));
        assert(b == b.subrange(0, i));
    }
}

} // verus!
