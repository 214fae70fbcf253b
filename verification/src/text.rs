//! Text normalisation shared by the parser and the batch rules.
//!
//! Strings are modelled by their sequence of characters.

use vstd::prelude::*;
use vstd::string::StrSliceExecFns;
use vstd::string::StringExecFns;

verus! {

/// Whether `c` carries the Unicode `White_Space` property.
pub open spec fn is_space(c: char) -> bool {
    ||| '\u{9}' <= c <= '\u{d}'
    ||| c == ' '
    ||| c == '\u{85}'
    ||| c == '\u{a0}'
    ||| c == '\u{1680}'
    ||| '\u{2000}' <= c <= '\u{200a}'
    ||| c == '\u{2028}'
    ||| c == '\u{2029}'
    ||| c == '\u{202f}'
    ||| c == '\u{205f}'
    ||| c == '\u{3000}'
}

/// `s` without the white space that surrounds it.
pub open spec fn trimmed(s: Seq<char>) -> Seq<char>
    decreases s.len(),
{
    if s.len() == 0 {
        s
    } else if is_space(s.first()) {
        trimmed(s.drop_first())
    } else if is_space(s.last()) {
        trimmed(s.drop_last())
    } else {
        s
    }
}

/// Whether `part` stands somewhere in `whole` as one piece.
pub open spec fn is_segment_of(part: Seq<char>, whole: Seq<char>) -> bool {
    exists|at: int|
        0 <= at && at + part.len() <= whole.len() && #[trigger] whole.subrange(
            at,
            at + part.len(),
        ) == part
}

/// An episode number brought to a width of at least two by zeros on the left.
pub open spec fn zero_padded(digits: Seq<char>) -> Seq<char> {
    if digits.len() >= 2 {
        digits
    } else if digits.len() == 1 {
        seq!['0'] + digits
    } else {
        seq!['0', '0']
    }
}

/// The lower-case form that Unicode gives to `s`, as `str::to_lowercase`
/// computes it.
pub uninterp spec fn unicode_lowercase(s: Seq<char>) -> Seq<char>;

/// Executable form of [`is_space`].
pub fn is_whitespace(c: char) -> (r: bool)
    ensures
        r == is_space(c),
{
    ('\u{9}' <= c && c <= '\u{d}') || c == ' ' || c == '\u{85}' || c == '\u{a0}' || c == '\u{1680}'
        || ('\u{2000}' <= c && c <= '\u{200a}') || c == '\u{2028}' || c == '\u{2029}' || c
        == '\u{202f}' || c == '\u{205f}' || c == '\u{3000}'
}

/// Whether `from` and `to` bound what is left of `s` once the white space
/// around it is gone: only white space stands before `from` and from `to`
/// on, and what lies between, if anything, begins and ends with a character
/// that is none.
pub open spec fn bounds_trimmed(s: Seq<char>, from: int, to: int) -> bool {
    &&& 0 <= from <= to <= s.len()
    &&& forall|k: int| 0 <= k < from ==> is_space(s[k])
    &&& forall|k: int| to <= k < s.len() ==> is_space(s[k])
    &&& from < to ==> !is_space(s[from]) && !is_space(s[to - 1])
}

/// Trimming cuts one part out of the text: all that it leaves out is white
/// space, and what it keeps neither begins nor ends with white space.
pub proof fn lemma_trimmed_is_inner_part(s: Seq<char>)
    ensures
        exists|from: int, to: int| #[trigger]
            bounds_trimmed(s, from, to) && trimmed(s) == s.subrange(from, to),
    decreases s.len(),
{
    if s.len() == 0 {
        assert(bounds_trimmed(s, 0, 0) && trimmed(s) =~= s.subrange(0, 0));
    } else if is_space(s.first()) {
        let rest = s.drop_first();
        lemma_trimmed_is_inner_part(rest);
        let (from, to) = choose|from: int, to: int| #[trigger]
            bounds_trimmed(rest, from, to) && trimmed(rest) == rest.subrange(from, to);
        assert forall|k: int| 0 <= k < from + 1 implies is_space(s[k]) by {
            if k > 0 {
                assert(s[k] == rest[k - 1]);
            }
        }
        assert forall|k: int| to + 1 <= k < s.len() implies is_space(s[k]) by {
            assert(s[k] == rest[k - 1]);
        }
        assert(rest.subrange(from, to) =~= s.subrange(from + 1, to + 1));
        assert(bounds_trimmed(s, from + 1, to + 1));
    } else if is_space(s.last()) {
        let rest = s.drop_last();
        lemma_trimmed_is_inner_part(rest);
        let (from, to) = choose|from: int, to: int| #[trigger]
            bounds_trimmed(rest, from, to) && trimmed(rest) == rest.subrange(from, to);
        assert forall|k: int| to <= k < s.len() implies is_space(s[k]) by {
            if k < rest.len() {
                assert(s[k] == rest[k]);
            }
        }
        assert(rest.subrange(from, to) =~= s.subrange(from, to));
        assert(bounds_trimmed(s, from, to));
    } else {
        assert(bounds_trimmed(s, 0, s.len() as int) && trimmed(s) =~= s.subrange(
            0,
            s.len() as int,
        ));
    }
}

/// A part of a part is a part.
pub proof fn lemma_segment_of_segment(inner: Seq<char>, middle: Seq<char>, outer: Seq<char>)
    requires
        is_segment_of(inner, middle),
        is_segment_of(middle, outer),
    ensures
        is_segment_of(inner, outer),
{
    let i = choose|at: int|
        0 <= at && at + inner.len() <= middle.len() && #[trigger] middle.subrange(
            at,
            at + inner.len(),
        ) == inner;
    let m = choose|at: int|
        0 <= at && at + middle.len() <= outer.len() && #[trigger] outer.subrange(
            at,
            at + middle.len(),
        ) == middle;
    assert(outer.subrange(m + i, m + i + inner.len()) =~= inner);
}

/// What trimming keeps is a part of the text.
pub proof fn lemma_trimmed_is_segment(s: Seq<char>)
    ensures
        is_segment_of(trimmed(s), s),
{
    lemma_trimmed_is_inner_part(s);
    let (from, to) = choose|from: int, to: int| #[trigger]
        bounds_trimmed(s, from, to) && trimmed(s) == s.subrange(from, to);
    assert(s.subrange(from, from + trimmed(s).len()) == trimmed(s));
}

/// Text that neither begins nor ends with white space is its own trimmed
/// form, so trimming twice gives what trimming once gives.
pub proof fn lemma_trimmed_is_idempotent(s: Seq<char>)
    ensures
        trimmed(s).len() > 0 ==> !is_space(trimmed(s).first()) && !is_space(trimmed(s).last()),
        trimmed(trimmed(s)) == trimmed(s),
    decreases s.len(),
{
    if s.len() == 0 {
    } else if is_space(s.first()) {
        lemma_trimmed_is_idempotent(s.drop_first());
    } else if is_space(s.last()) {
        lemma_trimmed_is_idempotent(s.drop_last());
    } else {
    }
}

/// Padding never shortens a number and never pads one twice: a number of two
/// or more characters is kept as it is, a shorter one gets zeros in front
/// until it has two, and the result is not changed by padding it once more.
pub proof fn lemma_padding_keeps_the_number(digits: Seq<char>)
    ensures
        zero_padded(digits).len() >= 2,
        zero_padded(digits).len() >= digits.len(),
        digits.len() >= 2 ==> zero_padded(digits) == digits,
        zero_padded(digits).subrange(
            zero_padded(digits).len() - digits.len(),
            zero_padded(digits).len() as int,
        ) == digits,
        forall|i: int|
            0 <= i < zero_padded(digits).len() - digits.len() ==> zero_padded(digits)[i] == '0',
        zero_padded(zero_padded(digits)) == zero_padded(digits),
{
    let padded = zero_padded(digits);
    assert(padded.subrange(padded.len() - digits.len(), padded.len() as int) =~= digits);
}

/// Dropping white space from the left end does not change what trimming gives.
proof fn lemma_trimmed_skips_left(s: Seq<char>, from: int, to: int)
    requires
        0 <= from < to <= s.len(),
        is_space(s[from]),
    ensures
        trimmed(s.subrange(from, to)) == trimmed(s.subrange(from + 1, to)),
{
    let t = s.subrange(from, to);
    assert(t.drop_first() =~= s.subrange(from + 1, to));
}

/// Dropping white space from the right end does not change what trimming
/// gives, once the left end is no white space.
proof fn lemma_trimmed_skips_right(s: Seq<char>, from: int, to: int)
    requires
        0 <= from < to <= s.len(),
        !is_space(s[from]),
        is_space(s[to - 1]),
    ensures
        trimmed(s.subrange(from, to)) == trimmed(s.subrange(from, to - 1)),
{
    let t = s.subrange(from, to);
    assert(t.drop_last() =~= s.subrange(from, to - 1));
}

/// Removes the white space around `s`.
pub fn trim(s: &str) -> (r: &str)
    ensures
        r@ == trimmed(s@),
{
    let n: usize = s.unicode_len();
    let mut start: usize = 0;
    proof {
        assert(s@.subrange(0, n as int) =~= s@);
    }
    while start < n && is_whitespace(s.get_char(start))
        invariant
            start <= n,
            n == s@.len(),
            trimmed(s@) == trimmed(s@.subrange(start as int, n as int)),
        decreases n - start,
    {
        proof {
            lemma_trimmed_skips_left(s@, start as int, n as int);
        }
        start += 1;
    }
    let mut end: usize = n;
    while end > start && is_whitespace(s.get_char(end - 1))
        invariant
            start <= end <= n,
            n == s@.len(),
            start < n ==> !is_space(s@[start as int]),
            trimmed(s@) == trimmed(s@.subrange(start as int, end as int)),
        decreases end - start,
    {
        proof {
            lemma_trimmed_skips_right(s@, start as int, end as int);
        }
        end -= 1;
    }
    s.substring_char(start, end)
}

/// Pads an episode number with zeros on the left to a width of two; a longer
/// one is returned as it is.
pub fn pad_episode(digits: &str) -> (r: String)
    ensures
        r@ == zero_padded(digits@),
{
    let n: usize = digits.unicode_len();
    let mut r = String::new();
    proof {
        reveal_strlit("0");
    }
    if n < 2 {
        r.append("0");
    }
    if n < 1 {
        r.append("0");
    }
    r.append(digits);
    proof {
        assert(r@ =~= zero_padded(digits@));
    }
    r
}

/// `str::to_lowercase` of std: the result is the lower-case form of `s` that
/// [`unicode_lowercase`] names. Nothing more is claimed of it.
#[verifier::external_body]
pub(crate) fn to_lowercase(s: &str) -> (r: String)
    ensures
        r@ == unicode_lowercase(s@),
{
    s.to_lowercase()
}

} // verus!
