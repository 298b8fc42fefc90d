//! White space and trimming, on sequences of characters.
//!
//! A headline is stored without the white space that surrounded it in the
//! page. This module says what that means and computes it.

use vstd::prelude::*;

verus! {

/// Whether `c` is white space: one of the code points that carry the
/// Unicode property `White_Space`.
pub open spec fn is_white_space(c: char) -> bool {
    let code = c as u32;
    ||| 0x09 <= code <= 0x0D
    ||| code == 0x20
    ||| code == 0x85
    ||| code == 0xA0
    ||| code == 0x1680
    ||| 0x2000 <= code <= 0x200A
    ||| code == 0x2028
    ||| code == 0x2029
    ||| code == 0x202F
    ||| code == 0x205F
    ||| code == 0x3000
}

/// `s` without the white space it begins with.
pub open spec fn trimmed_start(s: Seq<char>) -> Seq<char>
    decreases s.len(),
{
    if s.len() > 0 && is_white_space(s.first()) {
        trimmed_start(s.drop_first())
    } else {
        s
    }
}

/// `s` without the white space it ends with.
pub open spec fn trimmed_end(s: Seq<char>) -> Seq<char>
    decreases s.len(),
{
    if s.len() > 0 && is_white_space(s.last()) {
        trimmed_end(s.drop_last())
    } else {
        s
    }
}

/// `s` without the white space at either end. White space inside stays.
pub open spec fn trimmed(s: Seq<char>) -> Seq<char> {
    trimmed_end(trimmed_start(s))
}

/// Whether `s[start..end]` is what trimming leaves of `s`: everything
/// outside the range is white space, and the range, unless it is empty,
/// begins and ends with a character that is not.
pub open spec fn is_trim_range(s: Seq<char>, start: int, end: int) -> bool {
    &&& 0 <= start <= end <= s.len()
    &&& forall|k: int| 0 <= k < start ==> is_white_space(#[trigger] s[k])
    &&& forall|k: int| end <= k < s.len() ==> is_white_space(#[trigger] s[k])
    &&& start < end ==> !is_white_space(s[start]) && !is_white_space(s[end - 1])
    &&& start == end ==> end == s.len()
}

proof fn lemma_trimmed_start_is(s: Seq<char>, start: int)
    requires
        0 <= start <= s.len(),
        forall|k: int| 0 <= k < start ==> is_white_space(#[trigger] s[k]),
        start < s.len() ==> !is_white_space(s[start]),
    ensures
        trimmed_start(s) == s.skip(start),
    decreases start,
{
    if start == 0 {
        assert(s.skip(0) =~= s);
    } else {
        let rest = s.drop_first();
        assert forall|k: int| 0 <= k < start - 1 implies is_white_space(#[trigger] rest[k]) by {
            assert(rest[k] == s[k + 1]);
        }
        lemma_trimmed_start_is(rest, start - 1);
        assert(rest.skip(start - 1) =~= s.skip(start));
    }
}

proof fn lemma_trimmed_end_is(s: Seq<char>, end: int)
    requires
        0 <= end <= s.len(),
        forall|k: int| end <= k < s.len() ==> is_white_space(#[trigger] s[k]),
        0 < end ==> !is_white_space(s[end - 1]),
    ensures
        trimmed_end(s) == s.take(end),
    decreases s.len() - end,
{
    if end == s.len() {
        assert(s.take(end) =~= s);
    } else {
        let rest = s.drop_last();
        assert forall|k: int| end <= k < rest.len() implies is_white_space(#[trigger] rest[k]) by {
            assert(rest[k] == s[k]);
        }
        lemma_trimmed_end_is(rest, end);
        assert(rest.take(end) =~= s.take(end));
    }
}

/// Trimming leaves exactly the range that `is_trim_range` describes.
pub proof fn lemma_trimmed_is_range(s: Seq<char>, start: int, end: int)
    requires
        is_trim_range(s, start, end),
    ensures
        trimmed(s) == s.subrange(start, end),
{
    lemma_trimmed_start_is(s, start);
    let rest = s.skip(start);
    assert forall|k: int| end - start <= k < rest.len() implies is_white_space(
        #[trigger] rest[k],
    ) by {
        assert(rest[k] == s[k + start]);
    }
    if start < end {
        assert(rest[end - start - 1] == s[end - 1]);
    }
    lemma_trimmed_end_is(rest, end - start);
    assert(rest.take(end - start) =~= s.subrange(start, end));
}

/// Every sequence has a range that trimming leaves.
pub proof fn lemma_trim_range_exists(s: Seq<char>) -> (range: (int, int))
    ensures
        is_trim_range(s, range.0, range.1),
        trimmed(s) == s.subrange(range.0, range.1),
    decreases s.len(),
{
    let range = if s.len() == 0 {
        (0int, 0int)
    } else if is_white_space(s.first()) {
        let rest = s.drop_first();
        let inner = lemma_trim_range_exists(rest);
        assert forall|k: int| 0 <= k < inner.0 + 1 implies is_white_space(#[trigger] s[k]) by {
            if k > 0 {
                assert(s[k] == rest[k - 1]);
            }
        }
        assert forall|k: int| inner.1 + 1 <= k < s.len() implies is_white_space(
            #[trigger] s[k],
        ) by {
            assert(s[k] == rest[k - 1]);
        }
        if inner.0 < inner.1 {
            assert(s[inner.0 + 1] == rest[inner.0]);
            assert(s[inner.1] == rest[inner.1 - 1]);
        }
        (inner.0 + 1, inner.1 + 1)
    } else if is_white_space(s.last()) {
        let rest = s.drop_last();
        let inner = lemma_trim_range_exists(rest);
        assert(!is_white_space(rest[0]));
        assert(inner.0 == 0);
        assert forall|k: int| inner.1 <= k < s.len() implies is_white_space(#[trigger] s[k]) by {
            if k < rest.len() {
                assert(s[k] == rest[k]);
            }
        }
        assert(s[inner.1 - 1] == rest[inner.1 - 1]);
        (0int, inner.1)
    } else {
        (0int, s.len() as int)
    };
    lemma_trimmed_is_range(s, range.0, range.1);
    range
}

/// What trimming leaves neither begins nor ends with white space, and is a
/// run of `s` of which only white space was cut off.
pub proof fn lemma_trimmed_has_bare_ends(s: Seq<char>)
    ensures
        trimmed(s).len() > 0 ==> !is_white_space(trimmed(s).first()) && !is_white_space(
            trimmed(s).last(),
        ),
        exists|start: int, end: int|
            #![trigger s.subrange(start, end)]
            is_trim_range(s, start, end) && trimmed(s) == s.subrange(start, end),
{
    let range = lemma_trim_range_exists(s);
    assert(is_trim_range(s, range.0, range.1) && trimmed(s) == s.subrange(range.0, range.1));
}

/// Trimming twice is trimming once.
pub proof fn lemma_trimmed_twice(s: Seq<char>)
    ensures
        trimmed(trimmed(s)) == trimmed(s),
{
    lemma_trimmed_has_bare_ends(s);
    let t = trimmed(s);
    lemma_trimmed_is_range(t, 0, t.len() as int);
    assert(t.subrange(0, t.len() as int) =~= t);
}

/// A sequence that neither begins nor ends with white space is its own
/// trimmed form.
pub proof fn lemma_trimmed_of_bare(s: Seq<char>)
    requires
        s.len() > 0 ==> !is_white_space(s.first()) && !is_white_space(s.last()),
    ensures
        trimmed(s) == s,
{
    lemma_trimmed_is_range(s, 0, s.len() as int);
    assert(s.subrange(0, s.len() as int) =~= s);
}

/// Tells whether `c` is white space.
pub fn is_white_space_char(c: char) -> (white: bool)
    ensures
        white == is_white_space(c),
{
    let code: u32 = c as u32;
    (0x09 <= code && code <= 0x0D) || code == 0x20 || code == 0x85 || code == 0xA0 || code
        == 0x1680 || (0x2000 <= code && code <= 0x200A) || code == 0x2028 || code == 0x2029 || code
        == 0x202F || code == 0x205F || code == 0x3000
}

/// Cuts the white space off both ends of `text`.
pub fn trim(text: &str) -> (kept: &str)
    ensures
        kept@ == trimmed(text@),
{
    let total: usize = text.unicode_len();
    let mut start: usize = 0;
    let mut end: usize = 0;
    let mut index: usize = 0;
    for c in it: text.chars()
        invariant
            total == text@.len(),
            it.seq() == text@,
            index == it.index(),
            start <= end <= index,
            forall|k: int| 0 <= k < start ==> is_white_space(#[trigger] text@[k]),
            forall|k: int| end <= k < index ==> is_white_space(#[trigger] text@[k]),
            start < end ==> !is_white_space(text@[start as int]) && !is_white_space(
                text@[end - 1],
            ),
            start == end ==> end == index,
    {
        if !is_white_space_char(c) {
            if start == end {
                start = index;
            }
            end = index + 1;
        } else if start == end {
            start = index + 1;
            end = index + 1;
        }
        index = index + 1;
    }
    proof {
        lemma_trimmed_is_range(text@, start as int, end as int);
    }
    text.substring_char(start, end)
}

} // verus!
