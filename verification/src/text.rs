//! Sanitising of the fixed-width text fields of an on-chain record.
//!
//! Name, symbol and URI are stored at a fixed width and filled up with NUL
//! characters. Reading one removes the filling and any whitespace around the
//! text, and leaves everything between untouched.

use vstd::prelude::*;

verus! {

/// The code points that carry the Unicode property `White_Space`.
pub open spec fn is_whitespace(c: char) -> bool {
    let n = c as u32;
    ||| 0x09 <= n <= 0x0D
    ||| n == 0x20
    ||| n == 0x85
    ||| n == 0xA0
    ||| n == 0x1680
    ||| 0x2000 <= n <= 0x200A
    ||| n == 0x2028
    ||| n == 0x2029
    ||| n == 0x202F
    ||| n == 0x205F
    ||| n == 0x3000
}

/// A character that is removed from either end of a stored text: the NUL
/// filling or whitespace.
pub open spec fn is_padding(c: char) -> bool {
    c == '\0' || is_whitespace(c)
}

/// `s` without its leading padding.
pub open spec fn strip_start(s: Seq<char>) -> Seq<char>
    decreases s.len(),
{
    if s.len() > 0 && is_padding(s.first()) {
        strip_start(s.drop_first())
    } else {
        s
    }
}

/// `s` without its trailing padding.
pub open spec fn strip_end(s: Seq<char>) -> Seq<char>
    decreases s.len(),
{
    if s.len() > 0 && is_padding(s.last()) {
        strip_end(s.drop_last())
    } else {
        s
    }
}

/// The text that a stored field stands for: `s` without padding at either end.
pub open spec fn sanitized(s: Seq<char>) -> Seq<char> {
    strip_end(strip_start(s))
}

/// Whether every character of `s` is padding.
pub open spec fn all_padding(s: Seq<char>) -> bool {
    forall|i: int| 0 <= i < s.len() ==> is_padding(#[trigger] s[i])
}

/// Whether `s` neither starts nor ends with padding.
pub open spec fn is_clean(s: Seq<char>) -> bool {
    s.len() > 0 ==> !is_padding(s.first()) && !is_padding(s.last())
}

/// Whether `c` is padding.
pub fn is_padding_char(c: char) -> (b: bool)
    ensures
        b == is_padding(c),
{
    let n: u32 = c as u32;
    if n <= 0x20 {
        n == 0 || (0x09 <= n && n <= 0x0D) || n == 0x20
    } else if n <= 0x1680 {
        n == 0x85 || n == 0xA0 || n == 0x1680
    } else if n <= 0x200A {
        0x2000 <= n
    } else {
        n == 0x2028 || n == 0x2029 || n == 0x202F || n == 0x205F || n == 0x3000
    }
}

/// Where the first `a` characters of `s` are padding and the next one is not,
/// stripping the start removes exactly those `a`.
pub proof fn strip_start_skips(s: Seq<char>, a: int)
    requires
        0 <= a <= s.len(),
        all_padding(s.take(a)),
        a < s.len() ==> !is_padding(s[a]),
    ensures
        strip_start(s) == s.skip(a),
    decreases a,
{
    if a > 0 {
        assert(s.take(a)[0] == s[0]);
        let rest = s.drop_first();
        assert forall|i: int| 0 <= i < rest.take(a - 1).len() implies is_padding(
            #[trigger] rest.take(a - 1)[i],
        ) by {
            assert(rest.take(a - 1)[i] == s.take(a)[i + 1]);
        }
        strip_start_skips(rest, a - 1);
    }
}

/// Where the characters of `s` from `b` on are padding and the one before is
/// not, stripping the end keeps exactly the first `b`.
pub proof fn strip_end_takes(s: Seq<char>, b: int)
    requires
        0 <= b <= s.len(),
        all_padding(s.skip(b)),
        b > 0 ==> !is_padding(s[b - 1]),
    ensures
        strip_end(s) == s.take(b),
    decreases s.len() - b,
{
    if b < s.len() {
        assert(s.skip(b)[s.len() - b - 1] == s.last());
        let rest = s.drop_last();
        assert forall|i: int| 0 <= i < rest.skip(b).len() implies is_padding(
            #[trigger] rest.skip(b)[i],
        ) by {
            assert(rest.skip(b)[i] == s.skip(b)[i]);
        }
        strip_end_takes(rest, b);
    }
}

/// The number of characters that stripping the start of `s` removes.
pub proof fn strip_start_bounds(s: Seq<char>) -> (a: int)
    ensures
        0 <= a <= s.len(),
        strip_start(s) == s.skip(a),
        all_padding(s.take(a)),
        a < s.len() ==> !is_padding(s[a]),
    decreases s.len(),
{
    if s.len() > 0 && is_padding(s.first()) {
        let rest = s.drop_first();
        let k = strip_start_bounds(rest);
        assert forall|i: int| 0 <= i < s.take(k + 1).len() implies is_padding(
            #[trigger] s.take(k + 1)[i],
        ) by {
            if i > 0 {
                assert(s.take(k + 1)[i] == rest.take(k)[i - 1]);
            }
        }
        k + 1
    } else {
        0
    }
}

/// The number of characters that stripping the end of `s` keeps.
pub proof fn strip_end_bounds(s: Seq<char>) -> (b: int)
    ensures
        0 <= b <= s.len(),
        strip_end(s) == s.take(b),
        all_padding(s.skip(b)),
        b > 0 ==> !is_padding(s[b - 1]),
    decreases s.len(),
{
    if s.len() > 0 && is_padding(s.last()) {
        let rest = s.drop_last();
        let k = strip_end_bounds(rest);
        assert forall|i: int| 0 <= i < s.skip(k).len() implies is_padding(
            #[trigger] s.skip(k)[i],
        ) by {
            if i < rest.skip(k).len() {
                assert(s.skip(k)[i] == rest.skip(k)[i]);
            }
        }
        k
    } else {
        s.len() as int
    }
}

/// Padding around a text is removed and nothing else: where `core` neither
/// starts nor ends with padding and `left` and `right` hold padding only,
/// `left + core + right` stands for `core`. A field filled up with NUL
/// characters to its width is the case of an empty `left`.
pub proof fn padding_is_removed(left: Seq<char>, core: Seq<char>, right: Seq<char>)
    requires
        all_padding(left),
        is_clean(core),
        all_padding(right),
    ensures
        sanitized(left + core + right) == core,
{
    let s = left + core + right;
    if core.len() == 0 {
        strip_start_skips(s, s.len() as int);
    } else {
        let a = left.len() as int;
        strip_start_skips(s, a);
        let t = s.skip(a);
        let b = core.len() as int;
        strip_end_takes(t, b);
    }
}

/// A sanitised text neither starts nor ends with padding.
pub proof fn sanitized_is_clean(s: Seq<char>)
    ensures
        is_clean(sanitized(s)),
{
    strip_start_bounds(s);
    strip_end_bounds(strip_start(s));
}

/// A text that neither starts nor ends with padding is left as it is.
pub proof fn clean_text_is_kept(s: Seq<char>)
    requires
        is_clean(s),
    ensures
        sanitized(s) == s,
{
    padding_is_removed(Seq::empty(), s, Seq::empty());
}

/// Sanitising twice changes nothing more.
pub proof fn sanitized_is_idempotent(s: Seq<char>)
    ensures
        sanitized(sanitized(s)) == sanitized(s),
{
    sanitized_is_clean(s);
    clean_text_is_kept(sanitized(s));
}

/// What sanitising keeps is one unbroken stretch of the stored text.
pub proof fn sanitized_is_a_stretch(s: Seq<char>) -> (bounds: (int, int))
    ensures
        0 <= bounds.0 <= bounds.1 <= s.len(),
        sanitized(s) == s.subrange(bounds.0, bounds.1),
        all_padding(s.take(bounds.0)),
        all_padding(s.skip(bounds.1)),
{
    let a = strip_start_bounds(s);
    let t = strip_start(s);
    let b = strip_end_bounds(t);
    assert(t.skip(b) =~= s.skip(a + b));
    (a, a + b)
}

/// The text that the stored field `text` stands for.
pub fn sanitize(text: &str) -> (r: String)
    ensures
        r@ == sanitized(text@),
{
    let n: usize = text.unicode_len();
    let mut start: usize = 0;
    while start < n && is_padding_char(text.get_char(start))
        invariant
            start <= n,
            n == text@.len(),
            all_padding(text@.take(start as int)),
        decreases n - start,
    {
        start = start + 1;
        assert forall|i: int| 0 <= i < start implies is_padding(
            #[trigger] text@.take(start as int)[i],
        ) by {
            if i < start - 1 {
                assert(text@.take(start as int)[i] == text@.take(start - 1)[i]);
            }
        }
    }
    let mut end: usize = n;
    while end > start && is_padding_char(text.get_char(end - 1))
        invariant
            start <= end <= n,
            n == text@.len(),
            all_padding(text@.skip(end as int)),
        decreases end,
    {
        end = end - 1;
        assert forall|i: int| 0 <= i < n - end implies is_padding(
            #[trigger] text@.skip(end as int)[i],
        ) by {
            if i > 0 {
                assert(text@.skip(end as int)[i] == text@.skip(end + 1)[i - 1]);
            }
        }
    }
    proof {
        let s = text@;
        strip_start_skips(s, start as int);
        let t = s.skip(start as int);
        assert(all_padding(t.skip(end - start))) by {
            assert(t.skip(end - start) =~= s.skip(end as int));
        }
        strip_end_takes(t, end - start);
    }
    text.substring_char(start, end).to_owned()
}

} // verus!
