//! Decimal and hexadecimal parsing of command fields.
//!
//! A numeral is an optional leading `+` followed by one or more ASCII decimal
//! digits; anything else is rejected. Hex digits outside `0-9a-fA-F` count as
//! zero when a color payload is decoded.

use vstd::prelude::*;

verus! {

/// ASCII decimal digit.
pub open spec fn is_digit(c: char) -> bool {
    48 <= c as u32 && c as u32 <= 57
}

/// Value of an ASCII decimal digit.
pub open spec fn digit_val(c: char) -> nat {
    (c as u32 - 48) as nat
}

/// Every character of the sequence is a decimal digit.
pub open spec fn all_digits(s: Seq<char>) -> bool {
    forall|i: int| 0 <= i < s.len() ==> is_digit(#[trigger] s[i])
}

/// The number denoted by a sequence of decimal digits, most significant
/// first; an empty sequence denotes zero.
pub open spec fn digits_value(s: Seq<char>) -> nat
    decreases s.len(),
{
    if s.len() == 0 {
        0
    } else {
        digits_value(s.drop_last()) * 10 + digit_val(s.last())
    }
}

/// The digits of a numeral: everything after an optional leading `+`.
pub open spec fn numeral_body(s: Seq<char>) -> Seq<char> {
    if s.len() > 0 && s[0] == '+' {
        s.skip(1)
    } else {
        s
    }
}

/// Whether the sequence is a well-formed unsigned decimal numeral.
pub open spec fn is_numeral(s: Seq<char>) -> bool {
    numeral_body(s).len() > 0 && all_digits(numeral_body(s))
}

/// The number a numeral denotes.
pub open spec fn numeral_value(s: Seq<char>) -> nat {
    digits_value(numeral_body(s))
}

/// Ten to the `n`.
spec fn pow10(n: nat) -> nat
    decreases n,
{
    if n == 0 {
        1
    } else {
        10 * pow10((n - 1) as nat)
    }
}

/// A digit sequence denotes less than ten to its length.
proof fn lemma_digits_value_bound(s: Seq<char>)
    requires
        all_digits(s),
    ensures
        digits_value(s) < pow10(s.len()),
    decreases s.len(),
{
    if s.len() > 0 {
        lemma_digits_value_bound(s.drop_last());
    }
}

proof fn lemma_digits_value_at_most_seven(s: Seq<char>)
    requires
        all_digits(s),
        s.len() <= 7,
    ensures
        digits_value(s) <= 9999999,
{
    lemma_digits_value_bound(s);
    reveal_with_fuel(pow10, 8);
    assert(pow10(s.len()) <= pow10(7)) by {
        lemma_pow10_monotone(s.len(), 7);
    }
}

proof fn lemma_pow10_monotone(a: nat, b: nat)
    requires
        a <= b,
    ensures
        pow10(a) <= pow10(b),
    decreases b,
{
    if a < b {
        lemma_pow10_monotone(a, (b - 1) as nat);
        assert(pow10(b) == 10 * pow10((b - 1) as nat));
        assert(pow10(a) >= 1) by {
            lemma_pow10_positive(a);
        }
    }
}

proof fn lemma_pow10_positive(a: nat)
    ensures
        pow10(a) >= 1,
    decreases a,
{
    if a > 0 {
        lemma_pow10_positive((a - 1) as nat);
    }
}

/// A numeral of at most eight characters denotes less than ten to the
/// eighth.
pub proof fn lemma_numeral_value_bound(s: Seq<char>)
    requires
        s.len() <= 8,
        is_numeral(s),
    ensures
        numeral_value(s) < 100000000,
{
    lemma_digits_value_bound(numeral_body(s));
    lemma_pow10_monotone(numeral_body(s).len(), 8);
    reveal_with_fuel(pow10, 9);
}

/// One more digit at the right multiplies the value by ten and adds it.
proof fn lemma_digits_value_push(s: Seq<char>, c: char)
    ensures
        digits_value(s.push(c)) == digits_value(s) * 10 + digit_val(c),
{
    assert(s.push(c).drop_last() =~= s);
    assert(s.push(c).last() == c);
}

/// Parse a light id: a numeral of at most eight characters, as the external
/// command surface bounds the id field. Returns the denoted number, or `None`
/// for anything that is not a numeral.
pub fn parse_id(s: &Vec<char>) -> (r: Option<usize>)
    requires
        s@.len() <= 8,
    ensures
        r == (if is_numeral(s@) {
            Some(numeral_value(s@) as usize)
        } else {
            None::<usize>
        }),
{
    let n = s.len();
    let start: usize = if n > 0 && s[0] == '+' {
        1
    } else {
        0
    };
    proof {
        assert(numeral_body(s@) =~= s@.skip(start as int));
    }
    if n == start {
        return None;
    }
    let mut acc: usize = 0;
    let mut i: usize = start;
    while i < n
        invariant
            start <= i <= n,
            n == s@.len() <= 8,
            numeral_body(s@) =~= s@.skip(start as int),
            all_digits(s@.subrange(start as int, i as int)),
            acc == digits_value(s@.subrange(start as int, i as int)),
        decreases n - i,
    {
        let c = s[i];
        let v = c as u32;
        if v < 48 || v > 57 {
            proof {
                assert(numeral_body(s@)[i - start] == c);
                assert(!is_digit(c));
            }
            return None;
        }
        proof {
            let prefix = s@.subrange(start as int, i as int);
            assert(s@.subrange(start as int, i + 1) =~= prefix.push(c));
            lemma_digits_value_push(prefix, c);
            assert(is_digit(c));
            assert(forall|j: int|
                0 <= j < prefix.push(c).len() ==> is_digit(#[trigger] prefix.push(c)[j]));
            lemma_digits_value_at_most_seven(prefix);
        }
        acc = acc * 10 + ((v - 48) as usize);
        i = i + 1;
    }
    proof {
        assert(s@.subrange(start as int, n as int) =~= numeral_body(s@));
        assert(is_numeral(s@));
    }
    Some(acc)
}

/// Parse a power level: any numeral whose value fits in eight bits. A payload
/// that is not a numeral, or denotes more than 255, yields `None`.
pub fn parse_power(s: &Vec<char>) -> (r: Option<u8>)
    ensures
        r == (if is_numeral(s@) && numeral_value(s@) <= 255 {
            Some(numeral_value(s@) as u8)
        } else {
            None::<u8>
        }),
{
    let n = s.len();
    let start: usize = if n > 0 && s[0] == '+' {
        1
    } else {
        0
    };
    proof {
        assert(numeral_body(s@) =~= s@.skip(start as int));
    }
    if n == start {
        return None;
    }
    let mut acc: u32 = 0;
    let mut i: usize = start;
    while i < n
        invariant
            start <= i <= n,
            n == s@.len(),
            numeral_body(s@) =~= s@.skip(start as int),
            all_digits(s@.subrange(start as int, i as int)),
            acc <= 255 ==> acc == digits_value(s@.subrange(start as int, i as int)),
            acc > 255 ==> acc == 256 && digits_value(s@.subrange(start as int, i as int)) > 255,
        decreases n - i,
    {
        let c = s[i];
        let v = c as u32;
        if v < 48 || v > 57 {
            proof {
                assert(numeral_body(s@)[i - start] == c);
                assert(!is_digit(c));
            }
            return None;
        }
        proof {
            let prefix = s@.subrange(start as int, i as int);
            assert(s@.subrange(start as int, i + 1) =~= prefix.push(c));
            lemma_digits_value_push(prefix, c);
            assert(is_digit(c));
            assert(forall|j: int|
                0 <= j < prefix.push(c).len() ==> is_digit(#[trigger] prefix.push(c)[j]));
        }
        if acc <= 255 {
            acc = acc * 10 + (v - 48);
            if acc > 255 {
                acc = 256;
            }
        }
        i = i + 1;
    }
    proof {
        assert(s@.subrange(start as int, n as int) =~= numeral_body(s@));
        assert(is_numeral(s@));
    }
    if acc <= 255 {
        Some(acc as u8)
    } else {
        None
    }
}

/// Value of an ASCII hexadecimal digit; any other character counts as zero.
pub open spec fn hex_digit_val(c: char) -> nat {
    if is_digit(c) {
        digit_val(c)
    } else if 97 <= c as u32 && c as u32 <= 102 {
        (c as u32 - 97 + 10) as nat
    } else if 65 <= c as u32 && c as u32 <= 70 {
        (c as u32 - 65 + 10) as nat
    } else {
        0
    }
}

/// The channel value a hex digit of a short color payload expands to: the
/// digit times sixteen. The digit is deliberately not duplicated into both
/// nibbles, so `F` expands to 240, not 255.
pub open spec fn spec_hex_component(c: char) -> u8 {
    (hex_digit_val(c) * 16) as u8
}

/// Expand one hex digit of a `#xyz` color payload into an 8-bit channel.
pub fn hex_component(c: char) -> (r: u8)
    ensures
        r == spec_hex_component(c),
{
    let v = c as u32;
    let d: u32 = if 48 <= v && v <= 57 {
        v - 48
    } else if 97 <= v && v <= 102 {
        v - 97 + 10
    } else if 65 <= v && v <= 70 {
        v - 65 + 10
    } else {
        0
    };
    (d * 16) as u8
}

} // verus!
