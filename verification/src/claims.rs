//! What a verified API token says of its bearer, and how the token is
//! taken from the header that carries it.

use vstd::prelude::*;
use crate::text::{chars_of, text_of, texts};

verus! {

/// The claims of an API token.
#[derive(Clone, Debug, PartialEq, Eq)]
pub struct APIClaims {
    pub sub: String,
    pub exp: usize,
    pub group_id: i64,
    pub scopes: Vec<String>,
}

/// What an `APIClaims` holds.
pub struct APIClaimsView {
    pub sub: Seq<char>,
    pub exp: usize,
    pub group_id: i64,
    pub scopes: Seq<Seq<char>>,
}

impl View for APIClaims {
    type V = APIClaimsView;

    open spec fn view(&self) -> APIClaimsView {
        APIClaimsView {
            sub: self.sub@,
            exp: self.exp,
            group_id: self.group_id,
            scopes: texts(self.scopes@),
        }
    }
}

/// Why a request carries no usable claims.
#[derive(Clone, Copy, Debug, PartialEq, Eq, Structural)]
pub enum APIClaimsError {
    /// The request has no token, or more than one.
    Missing,
    /// The token is not valid.
    Invalid,
}

/// Whether a character is white space: one of the characters that have
/// the Unicode property `White_Space`.
pub open spec fn is_white_space(c: char) -> bool {
    let n = c as u32;
    ||| 0x09 <= n <= 0x0D
    ||| n == 0x20
    ||| n == 0x85
    ||| n == 0xA0
    ||| n == 0x1680
    ||| 0x2000 <= n <= 0x200A
    ||| n == 0x2028
    ||| n == 0x2029
    ||| n == 0x202F
    ||| n == 0x205F
    ||| n == 0x3000
}

/// `char::is_whitespace` of the standard library, which tells whether a
/// character has the Unicode property `White_Space`. It is taken on trust
/// that these are the characters that `is_white_space` lists.
#[verifier::external_body]
fn white_space(c: char) -> (b: bool)
    ensures
        b == is_white_space(c),
{
    c.is_whitespace()
}

/// The word that stands before a token, with the space after it.
pub open spec fn bearer_word() -> Seq<char> {
    seq!['B', 'e', 'a', 'r', 'e', 'r', ' ']
}

/// Whether a text starts with the word `Bearer` and a space.
pub open spec fn starts_with_bearer(s: Seq<char>) -> bool {
    s.len() >= 7 && s.subrange(0, 7) == bearer_word()
}

/// A text without the words `Bearer ` that it starts with, however many.
pub open spec fn without_bearer(s: Seq<char>) -> Seq<char>
    decreases s.len(),
{
    if starts_with_bearer(s) {
        without_bearer(s.skip(7))
    } else {
        s
    }
}

/// The number of characters of white space that a text starts with.
pub open spec fn leading_space(s: Seq<char>) -> int
    decreases s.len(),
{
    if s.len() > 0 && is_white_space(s[0]) {
        1 + leading_space(s.skip(1))
    } else {
        0
    }
}

/// The number of characters of white space that a text ends with.
pub open spec fn trailing_space(s: Seq<char>) -> int
    decreases s.len(),
{
    if s.len() > 0 && is_white_space(s.last()) {
        1 + trailing_space(s.drop_last())
    } else {
        0
    }
}

/// A text without the white space at its start and at its end.
pub open spec fn trimmed(s: Seq<char>) -> Seq<char> {
    let start = leading_space(s);
    if start == s.len() {
        Seq::empty()
    } else {
        s.subrange(start, s.len() - trailing_space(s))
    }
}

/// The token that the value of an authorization header carries: the
/// value without the words `Bearer ` before it and without white space
/// around it.
pub open spec fn token_in(value: Seq<char>) -> Seq<char> {
    trimmed(without_bearer(value))
}

/// The white space at the start of a text ends before the first other
/// character.
proof fn lemma_leading_space(s: Seq<char>, n: int)
    requires
        0 <= n <= s.len(),
        forall|j: int| 0 <= j < n ==> is_white_space(#[trigger] s[j]),
        n < s.len() ==> !is_white_space(s[n]),
    ensures
        leading_space(s) == n,
    decreases n,
{
    if n > 0 {
        let rest = s.skip(1);
        assert forall|j: int| 0 <= j < n - 1 implies is_white_space(#[trigger] rest[j]) by {
            assert(rest[j] == s[j + 1]);
        }
        if n < s.len() {
            assert(rest[n - 1] == s[n]);
        }
        lemma_leading_space(rest, n - 1);
    }
}

/// The white space at the end of a text starts after the last other
/// character.
proof fn lemma_trailing_space(s: Seq<char>, n: int)
    requires
        0 <= n <= s.len(),
        forall|j: int| s.len() - n <= j < s.len() ==> is_white_space(#[trigger] s[j]),
        n < s.len() ==> !is_white_space(s[s.len() - n - 1]),
    ensures
        trailing_space(s) == n,
    decreases n,
{
    if n > 0 {
        let rest = s.drop_last();
        assert forall|j: int| rest.len() - (n - 1) <= j < rest.len() implies is_white_space(
            #[trigger] rest[j],
        ) by {
            assert(rest[j] == s[j]);
        }
        if n < s.len() {
            assert(rest[rest.len() - (n - 1) - 1] == s[s.len() - n - 1]);
        }
        lemma_trailing_space(rest, n - 1);
    }
}

/// Whether the characters from position `at` on start with the word
/// `Bearer` and a space.
fn bearer_at(chars: &Vec<char>, at: usize) -> (b: bool)
    requires
        at <= chars.len(),
    ensures
        b == starts_with_bearer(chars@.skip(at as int)),
{
    let ghost rest = chars@.skip(at as int);
    if chars.len() - at < 7 {
        return false;
    }
    let found = chars[at] == 'B' && chars[at + 1] == 'e' && chars[at + 2] == 'a' && chars[at + 3]
        == 'r' && chars[at + 4] == 'e' && chars[at + 5] == 'r' && chars[at + 6] == ' ';
    proof {
        let head = rest.subrange(0, 7);
        assert(forall|j: int| 0 <= j < 7 ==> head[j] == chars@[at + j]);
        if found {
            assert(head =~= bearer_word());
        } else {
            assert(bearer_word()[0] == 'B' && bearer_word()[1] == 'e' && bearer_word()[2] == 'a'
                && bearer_word()[3] == 'r' && bearer_word()[4] == 'e' && bearer_word()[5] == 'r'
                && bearer_word()[6] == ' ');
        }
    }
    found
}

/// The token that the value of an authorization header carries.
pub fn token_of(value: &str) -> (token: String)
    ensures
        token@ == token_in(value@),
{
    let chars = chars_of(value);
    let mut start: usize = 0;
    assert(chars@.skip(0) =~= value@);
    while bearer_at(&chars, start)
        invariant
            start <= chars.len(),
            chars@ == value@,
            without_bearer(value@) == without_bearer(chars@.skip(start as int)),
        decreases chars.len() - start,
    {
        proof {
            assert(chars@.skip(start as int).skip(7) =~= chars@.skip(start + 7));
        }
        start += 7;
    }
    let ghost rest = chars@.skip(start as int);
    assert(without_bearer(value@) == rest);
    let mut first: usize = start;
    while first < chars.len() && white_space(chars[first])
        invariant
            start <= first <= chars.len(),
            forall|j: int| start <= j < first ==> is_white_space(#[trigger] chars@[j]),
        decreases chars.len() - first,
    {
        first += 1;
    }
    proof {
        assert forall|j: int| 0 <= j < first - start implies is_white_space(#[trigger] rest[j]) by {
            assert(rest[j] == chars@[start + j]);
        }
        lemma_leading_space(rest, first - start);
    }
    if first == chars.len() {
        return String::new();
    }
    let mut last: usize = chars.len();
    while last > first + 1 && white_space(chars[last - 1])
        invariant
            first < last <= chars.len(),
            !is_white_space(chars@[first as int]),
            forall|j: int| last <= j < chars.len() ==> is_white_space(#[trigger] chars@[j]),
        decreases last,
    {
        last -= 1;
    }
    proof {
        assert forall|j: int| rest.len() - (chars.len() - last) <= j < rest.len() implies is_white_space(
            #[trigger] rest[j],
        ) by {
            assert(rest[j] == chars@[start + j]);
        }
        assert(rest[rest.len() - (chars.len() - last) - 1] == chars@[last - 1]);
        lemma_trailing_space(rest, chars.len() - last);
    }
    let mut out: Vec<char> = Vec::new();
    let mut i: usize = first;
    while i < last
        invariant
            first <= i <= last <= chars.len(),
            out@ == chars@.subrange(first as int, i as int),
        decreases last - i,
    {
        out.push(chars[i]);
        i += 1;
    }
    assert(out@ =~= rest.subrange(first - start, rest.len() - (chars.len() - last)));
    text_of(&out)
}

/// The token of a request, given the values of the headers that may
/// carry it: there must be exactly one.
pub fn bearer_token(values: &Vec<String>) -> (r: Result<String, APIClaimsError>)
    ensures
        match r {
            Ok(token) => values@.len() == 1 && token@ == token_in(values@[0]@),
            Err(e) => values@.len() != 1 && e == APIClaimsError::Missing,
        },
{
    if values.len() != 1 {
        return Err(APIClaimsError::Missing);
    }
    Ok(token_of(values[0].as_str()))
}

} // verus!
