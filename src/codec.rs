//! Parsing of `0x`-prefixed hexadecimal text into 32-bit values.

use vstd::prelude::*;

verus! {

/// An ASCII hexadecimal digit, in either case.
pub open spec fn is_hex_digit(c: char) -> bool {
    ('0' <= c && c <= '9') || ('a' <= c && c <= 'f') || ('A' <= c && c <= 'F')
}

/// The value of a hexadecimal digit.
pub open spec fn hex_digit_value(c: char) -> nat {
    if '0' <= c && c <= '9' {
        (c as nat - '0' as nat) as nat
    } else if 'a' <= c && c <= 'f' {
        (c as nat - 'a' as nat + 10) as nat
    } else {
        (c as nat - 'A' as nat + 10) as nat
    }
}

pub open spec fn all_hex_digits(d: Seq<char>) -> bool {
    forall|i: int| 0 <= i < d.len() ==> is_hex_digit(#[trigger] d[i])
}

/// The number that a sequence of hexadecimal digits denotes, most significant first.
pub open spec fn hex_value(d: Seq<char>) -> nat
    decreases d.len(),
{
    if d.len() == 0 {
        0
    } else {
        16 * hex_value(d.drop_last()) + hex_digit_value(d.last())
    }
}

pub open spec fn has_hex_prefix(s: Seq<char>) -> bool {
    s.len() >= 2 && s[0] == '0' && s[1] == 'x'
}

/// `s` is `0x` followed by one or more hex digits whose value fits in 32 bits.
pub open spec fn is_hex_u32(s: Seq<char>) -> bool {
    &&& has_hex_prefix(s)
    &&& s.len() > 2
    &&& all_hex_digits(s.skip(2))
    &&& hex_value(s.skip(2)) <= u32::MAX
}

/// What `parse_hex` returns for the text `s`.
pub open spec fn spec_parse_hex(s: Seq<char>) -> Result<u32, ()> {
    if is_hex_u32(s) {
        Ok(hex_value(s.skip(2)) as u32)
    } else {
        Err(())
    }
}

fn hex_digit(c: char) -> (r: Option<u32>)
    ensures
        r == (if is_hex_digit(c) { Some(hex_digit_value(c) as u32) } else { None::<u32> }),
{
    if '0' <= c && c <= '9' {
        Some(c as u32 - '0' as u32)
    } else if 'a' <= c && c <= 'f' {
        Some(c as u32 - 'a' as u32 + 10)
    } else if 'A' <= c && c <= 'F' {
        Some(c as u32 - 'A' as u32 + 10)
    } else {
        None
    }
}

/// Appending digits never makes the value smaller.
proof fn lemma_hex_value_prefix_le(d: Seq<char>, i: int)
    requires
        0 <= i <= d.len(),
    ensures
        hex_value(d.subrange(0, i)) <= hex_value(d),
    decreases d.len() - i,
{
    if i < d.len() {
        lemma_hex_value_prefix_le(d, i + 1);
        assert(d.subrange(0, i + 1).drop_last() =~= d.subrange(0, i));
    } else {
        assert(d.subrange(0, i) =~= d);
    }
}

/// Sixteen to the power `n`.
pub open spec fn pow16(n: nat) -> nat
    decreases n,
{
    if n == 0 {
        1
    } else {
        16 * pow16((n - 1) as nat)
    }
}

/// The value of `n` hex digits is below `16^n`.
proof fn lemma_hex_value_bound(d: Seq<char>)
    requires
        all_hex_digits(d),
    ensures
        hex_value(d) < pow16(d.len()),
    decreases d.len(),
{
    if d.len() > 0 {
        let init = d.drop_last();
        assert(all_hex_digits(init)) by {
            assert forall|i: int| 0 <= i < init.len() implies is_hex_digit(#[trigger] init[i]) by {
                assert(init[i] == d[i]);
            }
        }
        lemma_hex_value_bound(init);
        assert(is_hex_digit(d[d.len() - 1]));
        assert(hex_digit_value(d.last()) < 16);
    }
}

proof fn lemma_pow16_monotonic(m: nat, n: nat)
    requires
        m <= n,
    ensures
        pow16(m) <= pow16(n),
    decreases n - m,
{
    if m < n {
        lemma_pow16_monotonic(m, (n - 1) as nat);
    }
}

/// `0x` followed by one to eight hex digits always parses, to exactly the
/// value of those digits; so does a longer run of digits whose value fits in
/// 32 bits.
pub proof fn lemma_hex_literal_accepted(digits: Seq<char>)
    requires
        1 <= digits.len(),
        all_hex_digits(digits),
        digits.len() <= 8 || hex_value(digits) <= u32::MAX,
    ensures
        hex_value(digits) <= u32::MAX,
        spec_parse_hex(seq!['0', 'x'] + digits) == Ok::<u32, ()>(hex_value(digits) as u32),
{
    let s = seq!['0', 'x'] + digits;
    assert(s.skip(2) =~= digits);
    if digits.len() <= 8 {
        lemma_hex_value_bound(digits);
        lemma_pow16_monotonic(digits.len(), 8);
        reveal_with_fuel(pow16, 9);
        assert(pow16(8) == 4294967296);
    }
}

/// Text without the `0x` prefix, with a character after it that is not a hex
/// digit, or whose digits denote a value above `0xFFFFFFFF`, is rejected.
pub proof fn lemma_malformed_rejected(s: Seq<char>)
    requires
        !has_hex_prefix(s)
            || (exists|i: int| 2 <= i < s.len() && !is_hex_digit(#[trigger] s[i]))
            || hex_value(s.skip(2)) > u32::MAX,
    ensures
        spec_parse_hex(s) == Err::<u32, ()>(()),
{
    if has_hex_prefix(s) && (exists|i: int| 2 <= i < s.len() && !is_hex_digit(#[trigger] s[i])) {
        let i = choose|i: int| 2 <= i < s.len() && !is_hex_digit(#[trigger] s[i]);
        assert(s.skip(2)[i - 2] == s[i]);
    }
}

/// Parses `0x` followed by hexadecimal digits (either case) into a `u32`.
/// Fails when the prefix is missing, when no digit follows it, when any other
/// character follows it, or when the value does not fit in 32 bits.
pub fn parse_hex(s: &str) -> (r: Result<u32, ()>)
    ensures
        r == spec_parse_hex(s@),
{
    let n = s.unicode_len();
    if n < 3 {
        return Err(());
    }
    if s.get_char(0) != '0' || s.get_char(1) != 'x' {
        return Err(());
    }
    let ghost digits = s@.skip(2);
    let mut acc: u64 = 0;
    let mut i: usize = 2;
    while i < n
        invariant
            2 <= i <= n,
            n == s@.len(),
            has_hex_prefix(s@),
            digits == s@.skip(2),
            all_hex_digits(digits.subrange(0, i - 2)),
            acc == hex_value(digits.subrange(0, i - 2)),
            acc <= u32::MAX,
        decreases n - i,
    {
        let c = s.get_char(i);
        let d = match hex_digit(c) {
            Some(d) => d,
            None => {
                assert(digits[i - 2] == c);
                return Err(());
            },
        };
        let next = acc * 16 + d as u64;
        proof {
            let pre = digits.subrange(0, i + 1 - 2);
            assert(pre.drop_last() =~= digits.subrange(0, i - 2));
            assert(pre.last() == c);
        }
        if next > u32::MAX as u64 {
            proof {
                lemma_hex_value_prefix_le(digits, i + 1 - 2);
            }
            return Err(());
        }
        acc = next;
        i = i + 1;
    }
    assert(digits.subrange(0, n - 2) =~= digits);
    Ok(acc as u32)
}

} // verus!
