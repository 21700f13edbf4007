//! Text helpers: joining, lower-casing, searching and reading decimal numbers.

use vstd::prelude::*;

verus! {

/// The lower-case form of the text `s`, as `str::to_lowercase` computes it.
pub uninterp spec fn lowercase(s: Seq<char>) -> Seq<char>;

/// The characters of `haystack` from position `at` on begin with `needle`.
pub open spec fn occurs_at(needle: Seq<char>, haystack: Seq<char>, at: int) -> bool {
    0 <= at && at + needle.len() <= haystack.len() && haystack.subrange(at, at + needle.len())
        == needle
}

/// `needle` occurs in `haystack` as a run of consecutive characters. The
/// empty text occurs in every text.
pub open spec fn occurs_in(needle: Seq<char>, haystack: Seq<char>) -> bool {
    exists|at: int| occurs_at(needle, haystack, at)
}

/// The empty text occurs in every text.
pub proof fn lemma_empty_occurs(needle: Seq<char>, haystack: Seq<char>)
    requires
        needle.len() == 0,
    ensures
        occurs_in(needle, haystack),
{
    assert(haystack.subrange(0, 0) =~= needle);
    assert(occurs_at(needle, haystack, 0));
}

/// `c` is one of the ten ASCII digits.
pub open spec fn is_digit(c: char) -> bool {
    '0' <= c <= '9'
}

/// Every character of `s` is an ASCII digit.
pub open spec fn all_digits(s: Seq<char>) -> bool {
    forall|i: int| 0 <= i < s.len() ==> is_digit(#[trigger] s[i])
}

/// The number that the digits `s` spell in base ten; the empty text spells 0.
pub open spec fn digits_value(s: Seq<char>) -> int
    decreases s.len(),
{
    if s.len() == 0 {
        0
    } else {
        digits_value(s.drop_last()) * 10 + (s.last() as int - '0' as int)
    }
}

/// The 64-bit signed number that `s` spells: an optional `+` or `-`, then one
/// or more ASCII digits and nothing else. `None` where `s` has another shape
/// or the number does not fit.
pub open spec fn decimal_i64(s: Seq<char>) -> Option<i64> {
    let signed = s.len() > 0 && (s[0] == '-' || s[0] == '+');
    let digits = if signed {
        s.skip(1)
    } else {
        s
    };
    let value = if signed && s[0] == '-' {
        -digits_value(digits)
    } else {
        digits_value(digits)
    };
    if digits.len() > 0 && all_digits(digits) && i64::MIN <= value <= i64::MAX {
        Some(value as i64)
    } else {
        None
    }
}

/// Calls `str::to_lowercase`. Trusted: the result is the lower-case form of
/// `s`, which the contract only names.
#[verifier::external_body]
pub(crate) fn to_lowercase(s: &str) -> (lowered: String)
    ensures
        lowered@ == lowercase(s@),
{
    s.to_lowercase()
}

/// The text `head` followed by the text `tail`.
pub fn joined(head: &str, tail: &str) -> (whole: String)
    ensures
        whole@ == head@ + tail@,
{
    let mut whole = head.to_owned();
    whole.append(tail);
    whole
}

/// The characters of `s`, one by one.
pub fn chars_of(s: &str) -> (chars: Vec<char>)
    ensures
        chars@ == s@,
{
    let mut chars: Vec<char> = Vec::new();
    for c in it: s.chars()
        invariant
            it.seq() == s@,
            chars@ == it.seq().take(it.index() as int),
    {
        chars.push(c);
    }
    assert(chars@ =~= s@);
    chars
}

/// Whether the characters of `haystack` from position `at` on begin with
/// `needle`.
fn begins_at(haystack: &Vec<char>, needle: &Vec<char>, at: usize) -> (found: bool)
    requires
        at + needle.len() <= haystack.len(),
    ensures
        found == occurs_at(needle@, haystack@, at as int),
{
    let ghost window = haystack@.subrange(at as int, at + needle.len());
    let mut k: usize = 0;
    while k < needle.len()
        invariant
            k <= needle.len(),
            at + needle.len() <= haystack.len(),
            window == haystack@.subrange(at as int, at + needle.len()),
            forall|j: int| 0 <= j < k ==> window[j] == needle@[j],
        decreases needle.len() - k,
    {
        if haystack[at + k] != needle[k] {
            assert(window[k as int] != needle@[k as int]);
            return false;
        }
        k = k + 1;
    }
    assert(window =~= needle@);
    true
}

/// Whether `needle` occurs somewhere in `haystack`.
pub fn contains(haystack: &str, needle: &str) -> (found: bool)
    ensures
        found == occurs_in(needle@, haystack@),
{
    let hay = chars_of(haystack);
    let pin = chars_of(needle);
    if pin.len() > hay.len() {
        return false;
    }
    let last: usize = hay.len() - pin.len();
    let mut at: usize = 0;
    loop
        invariant
            at <= last,
            last == hay.len() - pin.len(),
            hay@ == haystack@,
            pin@ == needle@,
            forall|j: int| 0 <= j < at ==> !occurs_at(pin@, hay@, j),
        decreases last - at,
    {
        if begins_at(&hay, &pin, at) {
            return true;
        }
        if at == last {
            return false;
        }
        at = at + 1;
    }
}

/// Appending digits never makes the number smaller.
proof fn lemma_digits_value_grows(s: Seq<char>, k: int)
    requires
        all_digits(s),
        0 <= k <= s.len(),
    ensures
        0 <= digits_value(s.take(k)) <= digits_value(s),
    decreases s.len() - k,
{
    lemma_digits_value_step(s, k);
    if k < s.len() {
        lemma_digits_value_grows(s, k + 1);
        lemma_digits_value_step(s, k + 1);
        assert(is_digit(s[k]));
    } else {
        assert(s.take(k) =~= s);
    }
}

/// How the number grows by one digit, and that it is never negative.
proof fn lemma_digits_value_step(s: Seq<char>, k: int)
    requires
        all_digits(s),
        0 <= k <= s.len(),
    ensures
        0 <= digits_value(s.take(k)),
        k > 0 ==> digits_value(s.take(k)) == digits_value(s.take(k - 1)) * 10 + (s[k - 1] as int
            - '0' as int),
    decreases k,
{
    if k > 0 {
        lemma_digits_value_step(s, k - 1);
        assert(s.take(k).drop_last() =~= s.take(k - 1));
        assert(s.take(k).last() == s[k - 1]);
        assert(is_digit(s[k - 1]));
    }
}

/// Reads `s` as a 64-bit signed decimal number: an optional sign, then
/// digits only. `None` where `s` has another shape or the number does not
/// fit.
pub fn parse_i64(s: &str) -> (number: Option<i64>)
    ensures
        number == decimal_i64(s@),
{
    let chars = chars_of(s);
    if chars.len() == 0 {
        return None;
    }
    let negative = chars[0] == '-';
    let start: usize = if chars[0] == '-' || chars[0] == '+' {
        1
    } else {
        0
    };
    let ghost digits = if start == 1 {
        s@.skip(1)
    } else {
        s@
    };
    if start == chars.len() {
        return None;
    }
    // The number is gathered below zero, where one more value fits.
    let mut below: i64 = 0;
    let mut i: usize = start;
    while i < chars.len()
        invariant
            start <= i <= chars.len(),
            chars@ == s@,
            s@.len() > 0,
            negative == (s@[0] == '-'),
            start == (if s@[0] == '-' || s@[0] == '+' {
                1usize
            } else {
                0usize
            }),
            digits == (if start == 1 {
                s@.skip(1)
            } else {
                s@
            }),
            all_digits(digits.take(i - start)),
            below == -digits_value(digits.take(i - start)),
        decreases chars.len() - i,
    {
        let c = chars[i];
        let ghost seen = digits.take(i - start);
        let ghost next = digits.take(i - start + 1);
        assert(digits[i - start] == c);
        if c < '0' || c > '9' {
            assert(!is_digit(digits[i - start]));
            return None;
        }
        proof {
            assert(next.drop_last() =~= seen);
            assert(next.last() == c);
            assert(all_digits(next)) by {
                assert forall|j: int| 0 <= j < next.len() implies is_digit(#[trigger] next[j]) by {
                    if j < seen.len() {
                        assert(seen[j] == next[j]);
                    }
                }
            }
            if all_digits(digits) {
                lemma_digits_value_grows(digits, i - start + 1);
            }
        }
        let digit: i64 = (c as u32 - '0' as u32) as i64;
        let tenfold = match below.checked_mul(10) {
            Some(tenfold) => tenfold,
            None => {
                return None;
            },
        };
        below = match tenfold.checked_sub(digit) {
            Some(lower) => lower,
            None => {
                return None;
            },
        };
        i = i + 1;
    }
    assert(digits.take(i - start) =~= digits);
    if negative {
        Some(below)
    } else if below == i64::MIN {
        None
    } else {
        Some(-below)
    }
}

} // verus!
