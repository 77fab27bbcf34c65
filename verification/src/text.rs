//! Text predicates shared by the validators, and the calls that compute them.
//!
//! Three Unicode notions are taken from outside this crate and are not
//! defined here: grapheme clusters, the White_Space property and lowercase
//! mapping. Each has a name in specifications; the functions that compute
//! them are trusted to agree with those names and are marked as such.

use unicode_segmentation::UnicodeSegmentation;
use vstd::prelude::*;
use vstd::std_specs::iter::IteratorSpec;
use vstd::utf8::is_ascii_chars;

verus! {

/// The number of extended grapheme clusters of `s` under the rules of
/// Unicode Standard Annex #29.
pub uninterp spec fn grapheme_count(s: Seq<char>) -> nat;

/// Whether `c` has the Unicode property White_Space.
pub uninterp spec fn is_white_space(c: char) -> bool;

/// The Unicode lowercase mapping of a text that is not pure ASCII.
pub uninterp spec fn unicode_lowercase(s: Seq<char>) -> Seq<char>;

/// A text is blank when nothing but white space is in it, so that nothing
/// is left of it once the white space at its ends is taken away. The empty
/// text is blank.
pub open spec fn blank(s: Seq<char>) -> bool {
    forall|i: int| 0 <= i < s.len() ==> is_white_space(#[trigger] s[i])
}

/// The lowercase form of an ASCII character: `A` to `Z` become `a` to `z`.
pub open spec fn ascii_lower(c: char) -> char {
    if 'A' <= c && c <= 'Z' {
        ((c as u8) + 32) as char
    } else {
        c
    }
}

/// An ASCII text with each character in its lowercase form.
pub open spec fn ascii_lowercase(s: Seq<char>) -> Seq<char> {
    Seq::new(s.len(), |i: int| ascii_lower(s[i]))
}

/// The lowercase form of a text: [`ascii_lowercase`] on ASCII text, the
/// Unicode mapping on any other.
pub open spec fn lowercase(s: Seq<char>) -> Seq<char> {
    if is_ascii_chars(s) {
        ascii_lowercase(s)
    } else {
        unicode_lowercase(s)
    }
}

/// Every character of `s` occurs in `set`.
pub open spec fn every_char_in(s: Seq<char>, set: Seq<char>) -> bool {
    forall|i: int| 0 <= i < s.len() ==> set.contains(#[trigger] s[i])
}

/// Some character of `s` occurs in `set`.
pub open spec fn some_char_in(s: Seq<char>, set: Seq<char>) -> bool {
    exists|i: int| 0 <= i < s.len() && set.contains(#[trigger] s[i])
}

/// The character that stands for the digit `value` in bases up to 36:
/// `0` to `9`, then `a` to `z`.
pub open spec fn digit_char(value: int) -> char {
    if value < 10 {
        ('0' as int + value) as char
    } else {
        ('a' as int + value - 10) as char
    }
}

/// The empty text is blank.
pub proof fn lemma_empty_is_blank()
    ensures
        blank(Seq::<char>::empty()),
{
}

/// Lowercase leaves an ASCII text without capital letters as it is.
pub proof fn lemma_lowercase_fixes_lowercase(s: Seq<char>)
    requires
        is_ascii_chars(s),
        forall|i: int| 0 <= i < s.len() ==> !('A' <= #[trigger] s[i] && s[i] <= 'Z'),
    ensures
        lowercase(s) == s,
{
    assert(ascii_lowercase(s) =~= s);
}

/// Trusted: `UnicodeSegmentation::graphemes` of the crate
/// unicode-segmentation, asked for extended clusters, and the count of what
/// it yields. The count depends on the text alone, so it has the name
/// [`grapheme_count`]; nothing else is claimed of it.
#[verifier::external_body]
pub(crate) fn count_graphemes(s: &str) -> (n: usize)
    ensures
        n == grapheme_count(s@),
{
    s.graphemes(true).count()
}

/// Trusted: `char::is_whitespace`, which tells whether a character has the
/// property White_Space. The answer depends on the character alone, so it
/// has the name [`is_white_space`]; nothing else is claimed of it.
#[verifier::external_body]
pub(crate) fn is_whitespace(c: char) -> (b: bool)
    ensures
        b == is_white_space(c),
{
    c.is_whitespace()
}

/// Trusted: `str::to_lowercase`. On ASCII text the result maps `A` to `Z`
/// onto `a` to `z` and keeps every other character; on other text it is the
/// Unicode mapping, which depends on the text alone and is only named.
#[verifier::external_body]
pub(crate) fn to_lowercase(s: &str) -> (lowered: String)
    ensures
        is_ascii_chars(s@) ==> lowered@ == ascii_lowercase(s@),
        !is_ascii_chars(s@) ==> lowered@ == unicode_lowercase(s@),
{
    s.to_lowercase()
}

/// Whether `s` is blank, which is to say that trimming it leaves nothing.
pub fn is_blank(s: &str) -> (b: bool)
    ensures
        b == blank(s@),
{
    let mut b = true;
    for c in it: s.chars()
        invariant
            it.seq() == s@,
            b <==> forall|j: int| 0 <= j < it.index() ==> is_white_space(#[trigger] s@[j]),
    {
        b = b && is_whitespace(c);
    }
    b
}

/// The digit `num` written in base `radix`, if it is a digit of that base.
pub fn from_digit(num: u32, radix: u32) -> (digit: Option<char>)
    requires
        radix <= 36,
    ensures
        digit == if num < radix {
            Some(digit_char(num as int))
        } else {
            None
        },
{
    if num >= radix {
        None
    } else if num < 10 {
        Some((48u8 + num as u8) as char)
    } else {
        Some((87u8 + num as u8) as char)
    }
}

/// Whether `c` is one of `set`.
pub fn contains_char(set: &[char], c: char) -> (found: bool)
    ensures
        found == set@.contains(c),
{
    let mut i: usize = 0;
    while i < set.len()
        invariant
            i <= set.len(),
            forall|j: int| 0 <= j < i ==> set@[j] != c,
        decreases set.len() - i,
    {
        if set[i] == c {
            return true;
        }
        i += 1;
    }
    false
}

/// Whether every character of `s` is one of `allowed`.
pub fn all_chars_in(s: &str, allowed: &[char]) -> (all: bool)
    ensures
        all == every_char_in(s@, allowed@),
{
    let mut all = true;
    for c in it: s.chars()
        invariant
            it.seq() == s@,
            all <==> forall|j: int| 0 <= j < it.index() ==> allowed@.contains(#[trigger] s@[j]),
    {
        all = all && contains_char(allowed, c);
    }
    all
}

/// Whether some character of `s` is one of `forbidden`.
pub fn any_char_in(s: &str, forbidden: &[char]) -> (any: bool)
    ensures
        any == some_char_in(s@, forbidden@),
{
    let mut any = false;
    for c in it: s.chars()
        invariant
            it.seq() == s@,
            any <==> exists|j: int| 0 <= j < it.index() && forbidden@.contains(#[trigger] s@[j]),
    {
        any = any || contains_char(forbidden, c);
    }
    any
}

/// Whether `a` and `b` are the same text.
pub fn same_text(a: &str, b: &str) -> (same: bool)
    ensures
        same == (a@ == b@),
{
    let mut left = a.chars();
    let mut right = b.chars();
    let ghost mut k: int = 0;
    loop
        invariant
            0 <= k <= a@.len(),
            k <= b@.len(),
            left.remaining() == a@.skip(k),
            right.remaining() == b@.skip(k),
            a@.take(k) == b@.take(k),
        decreases a@.len() - k,
    {
        let x = left.next();
        let y = right.next();
        match (x, y) {
            (None, None) => {
                assert(a@.take(k) == a@);
                assert(b@.take(k) == b@);
                return true;
            },
            (Some(c), Some(d)) => {
                if c != d {
                    assert(a@[k] != b@[k]);
                    return false;
                }
                proof {
                    assert(a@.take(k + 1) == a@.take(k).push(a@[k]));
                    assert(b@.take(k + 1) == b@.take(k).push(b@[k]));
                    k = k + 1;
                }
            },
            _ => {
                assert(a@.len() != b@.len());
                return false;
            },
        }
    }
}

} // verus!
