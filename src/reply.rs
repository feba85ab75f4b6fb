//! The reply to a size query: `SIZE <width> <height>`, with the keyword in
//! any case and whitespace around and between the parts.
use vstd::prelude::*;
use vstd::std_specs::iter::IteratorSpec;

verus! {

/// Unicode white space.
pub open spec fn is_space(c: char) -> bool {
    ('\u{9}' <= c && c <= '\u{d}') || c == ' ' || c == '\u{85}' || c == '\u{a0}'
        || c == '\u{1680}' || ('\u{2000}' <= c && c <= '\u{200a}') || c == '\u{2028}'
        || c == '\u{2029}' || c == '\u{202f}' || c == '\u{205f}' || c == '\u{3000}'
}

/// An ASCII decimal digit.
pub open spec fn is_digit(c: char) -> bool {
    '0' <= c && c <= '9'
}

/// The value of an ASCII decimal digit.
pub open spec fn digit_value(c: char) -> nat {
    (c as u32 - '0' as u32) as nat
}

/// Whether `c` is the `k`-th letter of the keyword `SIZE` under Unicode
/// simple case folding, by which the long s (U+017F) folds to `s`.
pub open spec fn keyword_letter(c: char, k: int) -> bool {
    if k == 0 {
        c == 'S' || c == 's' || c == '\u{17f}'
    } else if k == 1 {
        c == 'I' || c == 'i'
    } else if k == 2 {
        c == 'Z' || c == 'z'
    } else {
        c == 'E' || c == 'e'
    }
}

/// Whether the keyword stands at position `i` of `s`.
pub open spec fn keyword_at(s: Seq<char>, i: int) -> bool {
    0 <= i && i + 4 <= s.len() && forall|k: int| 0 <= k < 4 ==> keyword_letter(#[trigger] s[i + k], k)
}

/// The first position at or after `i` that holds no white space.
pub open spec fn skip_spaces(s: Seq<char>, i: int) -> int
    decreases s.len() - i,
{
    if 0 <= i < s.len() && is_space(s[i]) {
        skip_spaces(s, i + 1)
    } else {
        i
    }
}

/// The first position at or after `i` that holds no digit.
pub open spec fn skip_digits(s: Seq<char>, i: int) -> int
    decreases s.len() - i,
{
    if 0 <= i < s.len() && is_digit(s[i]) {
        skip_digits(s, i + 1)
    } else {
        i
    }
}

/// The number that the digits `s[i..j]` write in decimal.
pub open spec fn digits_value(s: Seq<char>, i: int, j: int) -> nat
    decreases j - i,
{
    if j <= i {
        0
    } else {
        digits_value(s, i, j - 1) * 10 + digit_value(s[j - 1])
    }
}

/// The width and height that a reply line states, if it has the form
/// `SIZE <digits> <digits>`: white space may stand before and after, at
/// least one white space separates the parts, and the keyword's case is free.
pub open spec fn size_reply(s: Seq<char>) -> Option<(nat, nat)> {
    let a = skip_spaces(s, 0);
    let b = a + 4;
    let c = skip_spaces(s, b);
    let d = skip_digits(s, c);
    let e = skip_spaces(s, d);
    let f = skip_digits(s, e);
    if keyword_at(s, a) && b < c && c < d && d < e && e < f && skip_spaces(s, f) == s.len() {
        Some((digits_value(s, c, d), digits_value(s, e, f)))
    } else {
        None
    }
}

/// Why a size reply was refused.
#[derive(Clone, Copy, Debug, PartialEq, Eq, Structural)]
pub enum SizeError {
    /// The line does not have the form `SIZE <width> <height>`.
    Malformed,
    /// A dimension does not fit in 16 bits.
    OutOfRange,
}

/// Collects the characters of a string.
fn chars_of(line: &str) -> (v: Vec<char>)
    ensures
        v@ == line@,
{
    let mut v: Vec<char> = Vec::new();
    let mut it = line.chars();
    loop
        invariant
            it.obeys_prophetic_iter_laws(),
            it.decrease() is Some,
            v@ + it.remaining() == line@,
        decreases it.decrease()->0,
    {
        match it.next() {
            Some(c) => {
                v.push(c);
                assert(v@ + it.remaining() =~= line@);
            },
            None => {
                assert(v@ =~= line@);
                return v;
            },
        }
    }
}

/// Whether `c` is white space.
fn space(c: char) -> (r: bool)
    ensures
        r == is_space(c),
{
    ('\u{9}' <= c && c <= '\u{d}') || c == ' ' || c == '\u{85}' || c == '\u{a0}'
        || c == '\u{1680}' || ('\u{2000}' <= c && c <= '\u{200a}') || c == '\u{2028}'
        || c == '\u{2029}' || c == '\u{202f}' || c == '\u{205f}' || c == '\u{3000}'
}

/// Whether `c` is the `k`-th letter of the keyword.
fn letter(c: char, k: usize) -> (r: bool)
    ensures
        r == keyword_letter(c, k as int),
{
    if k == 0 {
        c == 'S' || c == 's' || c == '\u{17f}'
    } else if k == 1 {
        c == 'I' || c == 'i'
    } else if k == 2 {
        c == 'Z' || c == 'z'
    } else {
        c == 'E' || c == 'e'
    }
}

/// Whether the keyword stands at position `i`.
fn keyword(s: &Vec<char>, i: usize) -> (r: bool)
    ensures
        r == keyword_at(s@, i as int),
{
    if i > s.len() || s.len() - i < 4 {
        return false;
    }
    let n = s.len();
    let mut k: usize = 0;
    while k < 4
        invariant
            n == s@.len(),
            i + 4 <= n,
            k <= 4,
            forall|m: int| 0 <= m < k ==> keyword_letter(#[trigger] s@[i + m], m),
        decreases 4 - k,
    {
        if !letter(s[i + k], k) {
            assert(!keyword_letter(s@[i + k as int], k as int));
            return false;
        }
        k += 1;
    }
    true
}

/// Computes `skip_spaces(s, i)`.
fn skip_space(s: &Vec<char>, i: usize) -> (r: usize)
    requires
        i <= s@.len(),
    ensures
        r == skip_spaces(s@, i as int),
        i <= r <= s@.len(),
{
    let mut j = i;
    while j < s.len() && space(s[j])
        invariant
            i <= j <= s@.len(),
            skip_spaces(s@, i as int) == skip_spaces(s@, j as int),
        decreases s@.len() - j,
    {
        j += 1;
    }
    j
}

/// Computes `skip_digits(s, i)`.
fn skip_digit(s: &Vec<char>, i: usize) -> (r: usize)
    requires
        i <= s@.len(),
    ensures
        r == skip_digits(s@, i as int),
        i <= r <= s@.len(),
{
    let mut j = i;
    while j < s.len() && '0' <= s[j] && s[j] <= '9'
        invariant
            i <= j <= s@.len(),
            skip_digits(s@, i as int) == skip_digits(s@, j as int),
        decreases s@.len() - j,
    {
        j += 1;
    }
    j
}

/// The largest value a dimension can take.
pub const DIMENSION_MAX: u32 = 65535;

/// Computes the value of the digits `s[i..j]` if it fits in 16 bits, and a
/// number above that bound else.
fn value_of(s: &Vec<char>, i: usize, j: usize) -> (r: u32)
    requires
        i <= j <= s@.len(),
        forall|k: int| i <= k < j ==> is_digit(#[trigger] s@[k]),
    ensures
        digits_value(s@, i as int, j as int) <= DIMENSION_MAX ==> r as nat == digits_value(
            s@,
            i as int,
            j as int,
        ),
        digits_value(s@, i as int, j as int) > DIMENSION_MAX ==> r > DIMENSION_MAX,
{
    let mut acc: u32 = 0;
    let mut k = i;
    while k < j
        invariant
            i <= k <= j <= s@.len(),
            forall|m: int| i <= m < j ==> is_digit(#[trigger] s@[m]),
            digits_value(s@, i as int, k as int) <= DIMENSION_MAX ==> acc as nat == digits_value(
                s@,
                i as int,
                k as int,
            ),
            digits_value(s@, i as int, k as int) > DIMENSION_MAX ==> acc == DIMENSION_MAX + 1,
        decreases j - k,
    {
        let c = s[k];
        assert(is_digit(s@[k as int]));
        let d = (c as u32) - ('0' as u32);
        if acc <= DIMENSION_MAX {
            let next = acc * 10 + d;
            if next > DIMENSION_MAX {
                acc = DIMENSION_MAX + 1;
            } else {
                acc = next;
            }
        }
        k += 1;
    }
    acc
}

/// Reads the width and height from the reply to a size query.
pub fn parse_screen_size(line: &str) -> (r: Result<(u16, u16), SizeError>)
    ensures
        match size_reply(line@) {
            None => r == Err::<(u16, u16), SizeError>(SizeError::Malformed),
            Some((w, h)) => if w <= DIMENSION_MAX && h <= DIMENSION_MAX {
                r == Ok::<(u16, u16), SizeError>((w as u16, h as u16))
            } else {
                r == Err::<(u16, u16), SizeError>(SizeError::OutOfRange)
            },
        },
{
    let s = chars_of(line);
    let n = s.len();
    let a = skip_space(&s, 0);
    if !keyword(&s, a) {
        return Err(SizeError::Malformed);
    }
    let b = a + 4;
    let c = skip_space(&s, b);
    let d = skip_digit(&s, c);
    let e = skip_space(&s, d);
    let f = skip_digit(&s, e);
    let end = skip_space(&s, f);
    if !(b < c && c < d && d < e && e < f && end == n) {
        return Err(SizeError::Malformed);
    }
    proof {
        lemma_skip_digits_all(s@, c as int);
        lemma_skip_digits_all(s@, e as int);
    }
    let w = value_of(&s, c, d);
    let h = value_of(&s, e, f);
    if w > DIMENSION_MAX || h > DIMENSION_MAX {
        return Err(SizeError::OutOfRange);
    }
    Ok((w as u16, h as u16))
}

/// Every position that `skip_digits` passes holds a digit.
proof fn lemma_skip_digits_all(s: Seq<char>, i: int)
    requires
        0 <= i <= s.len(),
    ensures
        i <= skip_digits(s, i) <= s.len(),
        forall|k: int| i <= k < skip_digits(s, i) ==> is_digit(#[trigger] s[k]),
    decreases s.len() - i,
{
    if i < s.len() && is_digit(s[i]) {
        lemma_skip_digits_all(s, i + 1);
    }
}

} // verus!
