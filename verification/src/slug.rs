//! Slugs: the lowercase, hyphen-separated identifiers that are derived
//! from organization names.
//!
//! A slug is made of the words of a name, a word being a longest run of the
//! letters `a` to `z` after lowercasing; every other character separates
//! words. The words are joined by single hyphens.

use vstd::prelude::*;
use vstd::utf8::is_ascii_chars;
use crate::text::{chars_of, text_of};

verus! {

/// One of the letters `a` to `z`.
pub open spec fn is_lower(c: char) -> bool {
    'a' <= c && c <= 'z'
}

/// The words of `t`, joined by hyphens.
///
/// Reading `t` from the left, a letter is appended to the slug so far; it
/// is preceded by a hyphen when it starts a new word and the slug is not
/// empty. Any other character contributes nothing by itself.
pub open spec fn slug_of(t: Seq<char>) -> Seq<char>
    decreases t.len(),
{
    if t.len() == 0 {
        Seq::empty()
    } else {
        let head = t.drop_last();
        let c = t.last();
        let sofar = slug_of(head);
        if !is_lower(c) {
            sofar
        } else if head.len() > 0 && !is_lower(head.last()) && sofar.len() > 0 {
            sofar.push('-').push(c)
        } else {
            sofar.push(c)
        }
    }
}

/// The shape of a slug: empty, or words of letters `a` to `z` separated
/// by single hyphens, with a letter first and last.
pub open spec fn is_slug(s: Seq<char>) -> bool {
    &&& forall|i: int| 0 <= i < s.len() ==> is_lower(#[trigger] s[i]) || s[i] == '-'
    &&& s.len() > 0 ==> is_lower(s[0]) && is_lower(s.last())
    &&& forall|i: int| 0 <= i < s.len() - 1 ==> !(#[trigger] s[i] == '-' && s[i + 1] == '-')
}

/// The lowercase form of an ASCII character.
pub open spec fn ascii_lower(c: char) -> char {
    if 'A' <= c && c <= 'Z' {
        ((c as u8 + 32) as u8) as char
    } else {
        c
    }
}

/// What `str::to_lowercase` returns for a text that is not pure ASCII.
pub uninterp spec fn unicode_lowercase(text: Seq<char>) -> Seq<char>;

/// The lowercase form of a text: for an ASCII text, each of `A` to `Z`
/// becomes the matching letter of `a` to `z` and nothing else changes; for
/// any other text, whatever Unicode lowercasing yields.
pub open spec fn lowered(text: Seq<char>) -> Seq<char> {
    if is_ascii_chars(text) {
        text.map_values(|c: char| ascii_lower(c))
    } else {
        unicode_lowercase(text)
    }
}

/// The slug of a name: the words of its lowercase form, joined by hyphens.
pub open spec fn slug_text(name: Seq<char>) -> Seq<char> {
    slug_of(lowered(name))
}

/// `str::to_lowercase` of the standard library. It is taken on trust that
/// on an ASCII text it lowers exactly the letters `A` to `Z`, and that on
/// any text its result depends on the text alone.
#[verifier::external_body]
fn lowercase(s: &str) -> (r: String)
    ensures
        r@ == (if is_ascii_chars(s@) {
            s@.map_values(|c: char| ascii_lower(c))
        } else {
            unicode_lowercase(s@)
        }),
{
    s.to_lowercase()
}

/// The words of `text`, joined by hyphens; `text` is read as it is, with
/// no change of case.
pub fn slugify(text: &str) -> (slug: String)
    ensures
        slug@ == slug_of(text@),
{
    let chars = chars_of(text);
    let mut out: Vec<char> = Vec::new();
    let mut i: usize = 0;
    while i < chars.len()
        invariant
            i <= chars.len(),
            out@ == slug_of(chars@.subrange(0, i as int)),
        decreases chars.len() - i,
    {
        let c = chars[i];
        proof {
            let t = chars@.subrange(0, i + 1);
            assert(t.drop_last() == chars@.subrange(0, i as int));
            assert(t.last() == c);
        }
        if 'a' <= c && c <= 'z' {
            if i > 0 && !('a' <= chars[i - 1] && chars[i - 1] <= 'z') && out.len() > 0 {
                out.push('-');
            }
            out.push(c);
        }
        i += 1;
    }
    assert(chars@.subrange(0, i as int) == chars@);
    text_of(&out)
}

/// The slug of a name.
///
/// The name is lowercased, every character that is then not one of `a`
/// to `z` counts as a separator, and the words that remain are joined by
/// single hyphens. The result has the shape of a slug, and is empty when
/// the name holds no such letter.
pub fn to_slug(input: &str) -> (slug: String)
    ensures
        slug@ == slug_text(input@),
        is_slug(slug@),
{
    let lower = lowercase(input);
    proof {
        lemma_slug_of_is_slug(lower@);
    }
    slugify(lower.as_str())
}

/// Whatever the text, its words joined by hyphens have the shape of a slug.
pub proof fn lemma_slug_of_is_slug(t: Seq<char>)
    ensures
        is_slug(slug_of(t)),
    decreases t.len(),
{
    if t.len() > 0 {
        lemma_slug_of_is_slug(t.drop_last());
    }
}

/// A text that is a slug up to one hyphen at its end: letters and single
/// hyphens, starting with a letter.
pub open spec fn is_slug_prefix(s: Seq<char>) -> bool {
    &&& forall|i: int| 0 <= i < s.len() ==> is_lower(#[trigger] s[i]) || s[i] == '-'
    &&& s.len() > 0 ==> is_lower(s[0])
    &&& forall|i: int| 0 <= i < s.len() - 1 ==> !(#[trigger] s[i] == '-' && s[i + 1] == '-')
}

/// The words of the start of a slug are that start itself, without the
/// hyphen that it may end with.
pub proof fn lemma_slug_of_prefix(s: Seq<char>)
    requires
        is_slug_prefix(s),
    ensures
        slug_of(s) == (if s.len() > 0 && s.last() == '-' {
            s.drop_last()
        } else {
            s
        }),
    decreases s.len(),
{
    if s.len() > 0 {
        let head = s.drop_last();
        assert(is_slug_prefix(head)) by {
            assert forall|i: int| 0 <= i < head.len() - 1 implies !(#[trigger] head[i] == '-'
                && head[i + 1] == '-') by {
                assert(head[i] == s[i] && head[i + 1] == s[i + 1]);
            }
        }
        lemma_slug_of_prefix(head);
        if is_lower(s.last()) {
            if head.len() > 0 && head.last() == '-' {
                assert(head.len() >= 2);
                assert(head.drop_last().push('-').push(s.last()) == s);
            } else {
                assert(head.push(s.last()) == s);
            }
        } else {
            assert(s.last() == '-');
            assert(s.len() >= 2);
            assert(head[head.len() - 1] == s[s.len() - 2]);
            assert(!(s[s.len() - 2] == '-' && s[s.len() - 2 + 1] == '-'));
        }
    }
}

/// A slug is its own slug.
pub proof fn lemma_slug_of_slug(s: Seq<char>)
    requires
        is_slug(s),
    ensures
        slug_of(s) == s,
{
    lemma_slug_of_prefix(s);
}

/// Lowercasing leaves a slug as it is.
pub proof fn lemma_lowered_slug(s: Seq<char>)
    requires
        is_slug(s),
    ensures
        lowered(s) == s,
{
    assert(is_ascii_chars(s)) by {
        assert forall|i: int| 0 <= i < s.len() implies '\0' <= #[trigger] s[i] <= '\u{7f}' by {
            assert(is_lower(s[i]) || s[i] == '-');
        }
    }
    assert(s.map_values(|c: char| ascii_lower(c)) =~= s) by {
        assert forall|i: int| 0 <= i < s.len() implies ascii_lower(#[trigger] s[i]) == s[i] by {
            assert(is_lower(s[i]) || s[i] == '-');
        }
    }
}

/// Taking the slug of a name is idempotent: the slug of a slug is that
/// slug again. And every slug is either empty or words of the letters `a`
/// to `z` separated by single hyphens.
pub proof fn lemma_to_slug_idempotent(name: Seq<char>)
    ensures
        slug_text(slug_text(name)) == slug_text(name),
        is_slug(slug_text(name)),
{
    let s = slug_text(name);
    lemma_slug_of_is_slug(lowered(name));
    lemma_lowered_slug(s);
    lemma_slug_of_slug(s);
}

} // verus!
