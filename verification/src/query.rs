//! Searching a table: the first row that meets a condition, the rows that
//! meet it, and one page of a list.

use vstd::prelude::*;

verus! {

/// `i` is the position of the first element of `s` that meets `p`.
pub open spec fn is_first<T>(s: Seq<T>, p: spec_fn(T) -> bool, i: int) -> bool {
    &&& 0 <= i < s.len()
    &&& p(s[i])
    &&& forall|j: int| 0 <= j < i ==> !p(#[trigger] s[j])
}

/// No element of `s` meets `p`.
pub open spec fn none_meets<T>(s: Seq<T>, p: spec_fn(T) -> bool) -> bool {
    forall|j: int| 0 <= j < s.len() ==> !p(#[trigger] s[j])
}

/// The position of the first element of `s` that meets `p`, if any does.
pub open spec fn first_match<T>(s: Seq<T>, p: spec_fn(T) -> bool) -> Option<int> {
    if exists|i: int| is_first(s, p, i) {
        Some(choose|i: int| is_first(s, p, i))
    } else {
        None
    }
}

/// A first position is the only one.
pub proof fn lemma_first_is<T>(s: Seq<T>, p: spec_fn(T) -> bool, i: int)
    requires
        is_first(s, p, i),
    ensures
        first_match(s, p) == Some(i),
{
    let k = choose|k: int| is_first(s, p, k);
    if k < i {
        assert(!p(s[k]));
    } else if i < k {
        assert(!p(s[i]));
    }
}

/// Where nothing meets the condition, nothing is found.
pub proof fn lemma_first_none<T>(s: Seq<T>, p: spec_fn(T) -> bool)
    requires
        none_meets(s, p),
    ensures
        first_match(s, p) is None,
{
    if exists|i: int| is_first(s, p, i) {
        let k = choose|k: int| is_first(s, p, k);
        assert(!p(s[k]));
    }
}

/// Among the first `n` elements, either none meets `p` or there is a
/// first one that does.
proof fn lemma_first_below<T>(s: Seq<T>, p: spec_fn(T) -> bool, n: int)
    requires
        0 <= n <= s.len(),
    ensures
        (forall|j: int| 0 <= j < n ==> !p(#[trigger] s[j])) || (exists|i: int|
            i < n && is_first(s, p, i)),
    decreases n,
{
    if n > 0 {
        lemma_first_below(s, p, n - 1);
        if forall|j: int| 0 <= j < n - 1 ==> !p(#[trigger] s[j]) {
            if p(s[n - 1]) {
                assert(is_first(s, p, n - 1));
            }
        } else {
            let i = choose|i: int| i < n - 1 && is_first(s, p, i);
            assert(i < n && is_first(s, p, i));
        }
    }
}

/// What is found is the first element that meets the condition; nothing
/// is found only where none meets it.
pub proof fn lemma_first_match<T>(s: Seq<T>, p: spec_fn(T) -> bool)
    ensures
        match first_match(s, p) {
            Some(i) => is_first(s, p, i),
            None => none_meets(s, p),
        },
{
    lemma_first_below(s, p, s.len() as int);
}

/// A new last element is found only where nothing was found before it.
pub proof fn lemma_first_match_push<T>(s: Seq<T>, p: spec_fn(T) -> bool, x: T)
    ensures
        first_match(s.push(x), p) == (match first_match(s, p) {
            Some(i) => Some(i),
            None => if p(x) {
                Some(s.len() as int)
            } else {
                None
            },
        }),
{
    lemma_first_match(s, p);
    let t = s.push(x);
    match first_match(s, p) {
        Some(i) => {
            assert(t[i] == s[i]);
            assert forall|j: int| 0 <= j < i implies !p(#[trigger] t[j]) by {
                assert(t[j] == s[j]);
            }
            lemma_first_is(t, p, i);
        },
        None => {
            if p(x) {
                assert forall|j: int| 0 <= j < s.len() implies !p(#[trigger] t[j]) by {
                    assert(t[j] == s[j]);
                }
                lemma_first_is(t, p, s.len() as int);
            } else {
                assert forall|j: int| 0 <= j < t.len() implies !p(#[trigger] t[j]) by {
                    if j < s.len() {
                        assert(t[j] == s[j]);
                    }
                }
                lemma_first_none(t, p);
            }
        },
    }
}

/// Replacing an element by one that meets the condition exactly when the
/// old one did leaves the search where it was.
pub proof fn lemma_first_match_update<T>(s: Seq<T>, p: spec_fn(T) -> bool, k: int, x: T)
    requires
        0 <= k < s.len(),
        p(x) == p(s[k]),
    ensures
        first_match(s.update(k, x), p) == first_match(s, p),
{
    lemma_first_match(s, p);
    let t = s.update(k, x);
    match first_match(s, p) {
        Some(i) => {
            assert forall|j: int| 0 <= j < i implies !p(#[trigger] t[j]) by {
                if j != k {
                    assert(t[j] == s[j]);
                }
            }
            lemma_first_is(t, p, i);
        },
        None => {
            assert forall|j: int| 0 <= j < t.len() implies !p(#[trigger] t[j]) by {
                if j != k {
                    assert(t[j] == s[j]);
                }
            }
            lemma_first_none(t, p);
        },
    }
}

/// What the rows of a list hold, in the order of the list.
pub open spec fn views<R: View>(rows: Seq<R>) -> Seq<R::V> {
    Seq::new(rows.len(), |i: int| rows[i]@)
}

/// One more row at the end of a list is one more at the end of what the
/// list holds.
pub proof fn lemma_views_push<R: View>(rows: Seq<R>, row: R)
    ensures
        views(rows.push(row)) == views(rows).push(row@),
{
    assert(views(rows.push(row)) =~= views(rows).push(row@));
}

/// The elements of `s` that meet `p`, in their order: those among the
/// first `i + 1` are those among the first `i`, and then the one at `i`
/// if it meets `p`.
pub proof fn lemma_filter_step<T>(s: Seq<T>, p: spec_fn(T) -> bool, i: int)
    requires
        0 <= i < s.len(),
    ensures
        s.subrange(0, i + 1).filter(p) == (if p(s[i]) {
            s.subrange(0, i).filter(p).push(s[i])
        } else {
            s.subrange(0, i).filter(p)
        }),
{
    reveal(Seq::filter);
    let t = s.subrange(0, i + 1);
    assert(t.drop_last() =~= s.subrange(0, i));
    assert(t.last() == s[i]);
}

/// Of an empty list, nothing meets a condition.
pub proof fn lemma_filter_none<T>(s: Seq<T>, p: spec_fn(T) -> bool)
    requires
        s.len() == 0,
    ensures
        s.filter(p) == Seq::<T>::empty(),
{
    reveal(Seq::filter);
    assert(s =~= Seq::<T>::empty());
}

/// The elements that meet a condition among the first `n` of a list are
/// the first of those that meet it in the whole list.
pub proof fn lemma_filter_prefix<T>(s: Seq<T>, p: spec_fn(T) -> bool, n: int)
    requires
        0 <= n <= s.len(),
    ensures
        s.subrange(0, n).filter(p).len() <= s.filter(p).len(),
        forall|k: int|
            0 <= k < s.subrange(0, n).filter(p).len() ==> #[trigger] s.filter(p)[k]
                == s.subrange(0, n).filter(p)[k],
    decreases s.len() - n,
{
    if n == s.len() {
        assert(s.subrange(0, n) =~= s);
    } else {
        lemma_filter_step(s, p, n);
        lemma_filter_prefix(s, p, n + 1);
    }
}

/// The elements of `rows` at the given positions, in the order of the
/// positions.
pub open spec fn picks<T>(rows: Seq<T>, at: Seq<usize>) -> Seq<T> {
    Seq::new(at.len(), |k: int| rows[at[k] as int])
}

/// The given positions are those of the elements of `rows` that meet `p`,
/// in rising order.
pub open spec fn selects<T>(rows: Seq<T>, p: spec_fn(T) -> bool, at: Seq<usize>) -> bool {
    &&& forall|k: int| 0 <= k < at.len() ==> (#[trigger] at[k]) < rows.len()
    &&& picks(rows, at) == rows.filter(p)
}

/// The number of a page, at least 1; pages are counted from 1, which is
/// also the page taken where none is asked for.
pub open spec fn page_number_of(page_number: Option<i64>) -> int {
    match page_number {
        Some(n) => if n >= 1 {
            n as int
        } else {
            1
        },
        None => 1,
    }
}

/// The size of a page, at least 1; a page holds 10 rows where no size is
/// asked for.
pub open spec fn page_size_of(page_size: Option<i64>) -> int {
    match page_size {
        Some(n) => if n >= 1 {
            n as int
        } else {
            1
        },
        None => 10,
    }
}

/// The number of rows that lie before a page.
pub open spec fn page_offset(page_number: Option<i64>, page_size: Option<i64>) -> int {
    (page_number_of(page_number) - 1) * page_size_of(page_size)
}

/// Where a page starts in a list of `len` rows: at its offset, or at the
/// end of the list if the offset lies beyond it.
pub open spec fn page_start(len: int, page_number: Option<i64>, page_size: Option<i64>) -> int {
    let offset = page_offset(page_number, page_size);
    if offset < len {
        offset
    } else {
        len
    }
}

/// Where a page ends in a list of `len` rows: one page size after its
/// start, or at the end of the list.
pub open spec fn page_end(len: int, page_number: Option<i64>, page_size: Option<i64>) -> int {
    let end = page_offset(page_number, page_size) + page_size_of(page_size);
    if end < len {
        end
    } else {
        len
    }
}

/// One page of a list, in the order of the list.
pub open spec fn page_of<T>(rows: Seq<T>, page_number: Option<i64>, page_size: Option<i64>) -> Seq<
    T,
> {
    rows.subrange(
        page_start(rows.len() as int, page_number, page_size),
        page_end(rows.len() as int, page_number, page_size),
    )
}

/// The bounds of a page in a list of `len` rows: the positions of its
/// first row and of the row after its last.
pub fn page_range(len: usize, page_number: Option<i64>, page_size: Option<i64>) -> (r: (
    usize,
    usize,
))
    ensures
        r.0 == page_start(len as int, page_number, page_size),
        r.1 == page_end(len as int, page_number, page_size),
        r.0 <= r.1 <= len,
{
    let number: i64 = match page_number {
        Some(n) => if n >= 1 {
            n
        } else {
            1
        },
        None => 1,
    };
    let size: i64 = match page_size {
        Some(n) => if n >= 1 {
            n
        } else {
            1
        },
        None => 10,
    };
    let before: u128 = (number - 1) as u128;
    let width: u128 = size as u128;
    assert(before * width <= 0x8000_0000_0000_0000 * 0x8000_0000_0000_0000) by (nonlinear_arith)
        requires
            0 <= before <= 0x8000_0000_0000_0000,
            0 <= width <= 0x8000_0000_0000_0000,
    ;
    let offset: u128 = before * width;
    let end: u128 = offset + width;
    let total: u128 = len as u128;
    let start: usize = if offset < total {
        offset as usize
    } else {
        len
    };
    let stop: usize = if end < total {
        end as usize
    } else {
        len
    };
    (start, stop)
}

/// A page ends where the next one starts: the pages of a list follow one
/// another without a gap and without a row in two of them.
pub proof fn lemma_pages_are_consecutive(len: int, page_number: i64, page_size: Option<i64>)
    requires
        0 <= len,
        1 <= page_number < i64::MAX,
    ensures
        page_end(len, Some(page_number), page_size) == page_start(
            len,
            Some((page_number + 1) as i64),
            page_size,
        ),
        page_start(len, Some(page_number), page_size) <= page_end(
            len,
            Some(page_number),
            page_size,
        ),
        page_start(len, Some(1), page_size) == 0,
{
    let size = page_size_of(page_size);
    assert((page_number - 1) * size + size == page_number * size) by (nonlinear_arith);
    assert((1 - 1) * size == 0) by (nonlinear_arith);
    assert(0 <= (page_number - 1) * size) by (nonlinear_arith)
        requires
            1 <= page_number,
            1 <= size,
    ;
}

} // verus!
