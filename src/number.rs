use crate::color::{color_hex, hex_digit};
use crate::text::{char_at, char_count};
use vstd::arithmetic::div_mod::{lemma_div_denominator, lemma_mod_breakdown};
use vstd::prelude::*;

verus! {

/// Value of `c` as a digit in base `radix`: `0-9`, then `a-z` or `A-Z` for 10
/// and up; `None` where `c` is no digit of that base.
pub open spec fn digit_value(c: char, radix: nat) -> Option<nat> {
    let n = c as u32 as int;
    let v: int = if '0' as u32 <= n <= '9' as u32 {
        n - '0' as u32
    } else if 'a' as u32 <= n <= 'z' as u32 {
        n - 'a' as u32 + 10
    } else if 'A' as u32 <= n <= 'Z' as u32 {
        n - 'A' as u32 + 10
    } else {
        radix as int
    };
    if v < radix {
        Some(v as nat)
    } else {
        None
    }
}

/// Whether every character of `s` is a digit in base `radix`.
pub open spec fn all_digits(s: Seq<char>, radix: nat) -> bool {
    forall|i: int| 0 <= i < s.len() ==> (#[trigger] digit_value(s[i], radix)) is Some
}

/// The number that the digits `s` write in base `radix`.
pub open spec fn digits_value(s: Seq<char>, radix: nat) -> nat
    decreases s.len(),
{
    if s.len() == 0 {
        0
    } else {
        digits_value(s.drop_last(), radix) * radix + match digit_value(s.last(), radix) {
            Some(d) => d,
            None => 0,
        }
    }
}

/// `s` without one leading `+`.
pub open spec fn unsigned_digits(s: Seq<char>) -> Seq<char> {
    if s.len() > 0 && s[0] == '+' {
        s.drop_first()
    } else {
        s
    }
}

/// How an unsigned 32-bit number is read in base `radix`: an optional `+`,
/// then at least one digit, with a value that fits in 32 bits.
pub open spec fn parse_u32_spec(s: Seq<char>, radix: nat) -> Option<u32> {
    let t = unsigned_digits(s);
    if t.len() > 0 && all_digits(t, radix) && digits_value(t, radix) <= u32::MAX {
        Some(digits_value(t, radix) as u32)
    } else {
        None
    }
}

proof fn lemma_prefix_value_le(t: Seq<char>, k: nat, radix: nat)
    requires
        k <= t.len(),
        radix >= 1,
    ensures
        digits_value(t.take(k as int), radix) <= digits_value(t, radix),
    decreases t.len(),
{
    if k < t.len() {
        let p = t.drop_last();
        lemma_prefix_value_le(p, k, radix);
        assert(p.take(k as int) =~= t.take(k as int));
        let v = digits_value(p, radix);
        assert(v * radix >= v) by (nonlinear_arith)
            requires
                radix >= 1,
        ;
    } else {
        assert(t.take(k as int) =~= t);
    }
}

fn digit_of(c: char, radix: u32) -> (r: Option<u32>)
    requires
        2 <= radix <= 36,
    ensures
        r is Some <==> digit_value(c, radix as nat) is Some,
        r is Some ==> r->Some_0 as nat == digit_value(c, radix as nat)->Some_0,
        r is Some ==> r->Some_0 < radix,
{
    let n = c as u32;
    let v: u32 = if '0' as u32 <= n && n <= '9' as u32 {
        n - '0' as u32
    } else if 'a' as u32 <= n && n <= 'z' as u32 {
        n - 'a' as u32 + 10
    } else if 'A' as u32 <= n && n <= 'Z' as u32 {
        n - 'A' as u32 + 10
    } else {
        radix
    };
    if v < radix {
        Some(v)
    } else {
        None
    }
}

/// Reads an unsigned 32-bit number written in base `radix` (see
/// [`parse_u32_spec`]); `None` where `s` is empty, holds a character that is
/// no digit, or writes a number too large for 32 bits.
pub fn parse_u32(s: &str, radix: u32) -> (r: Option<u32>)
    requires
        2 <= radix <= 36,
    ensures
        r == parse_u32_spec(s@, radix as nat),
{
    let n = char_count(s);
    let ghost t = unsigned_digits(s@);
    let mut i: usize = 0;
    if n > 0 && char_at(s, 0) == '+' {
        i = 1;
    }
    let start = i;
    assert(t =~= s@.subrange(start as int, n as int));
    if i == n {
        return None;
    }
    let mut acc: u64 = 0;
    while i < n
        invariant
            start <= i <= n,
            n == s@.len(),
            t =~= s@.subrange(start as int, n as int),
            t == unsigned_digits(s@),
            2 <= radix <= 36,
            acc as nat == digits_value(t.take(i - start), radix as nat),
            acc <= u32::MAX,
            all_digits(t.take(i - start), radix as nat),
        decreases n - i,
    {
        let ghost j: int = i - start;
        assert(t.take(j + 1).drop_last() =~= t.take(j));
        assert(t.take(j + 1).last() == s@[i as int]);
        assert(t[j] == s@[i as int]);
        let d = match digit_of(char_at(s, i), radix) {
            Some(d) => d,
            None => {
                assert(!all_digits(t, radix as nat)) by {
                    assert(digit_value(t[j], radix as nat) is None);
                }
                return None;
            },
        };
        assert(acc * radix <= 36 * 0xFFFF_FFFFu64) by (nonlinear_arith)
            requires
                acc <= 0xFFFF_FFFFu64,
                radix <= 36,
        ;
        let next: u64 = acc * radix as u64 + d as u64;
        if next > u32::MAX as u64 {
            proof {
                if all_digits(t, radix as nat) {
                    lemma_prefix_value_le(t, (j + 1) as nat, radix as nat);
                }
            }
            return None;
        }
        acc = next;
        i = i + 1;
        assert(all_digits(t.take(i - start), radix as nat)) by {
            assert forall|k: int| 0 <= k < t.take(i - start).len() implies (#[trigger] digit_value(
                t.take(i - start)[k],
                radix as nat,
            )) is Some by {
                if k < j {
                    assert(t.take(j)[k] == t.take(i - start)[k]);
                }
            }
        }
    }
    assert(t.take(n - start) =~= t);
    Some(acc as u32)
}

proof fn lemma_hex_digit_value(d: nat)
    requires
        d < 16,
    ensures
        digit_value(hex_digit(d), 16) == Some(d),
        hex_digit(d) != '+',
{
}

/// A colour rendered for display and read back as a hexadecimal number gives
/// the colour's low 24 bits.
pub proof fn lemma_color_hex_round_trip(c: u32)
    ensures
        parse_u32_spec(color_hex(c), 16) == Some((c % 0x100_0000) as u32),
{
    let n = c as nat;
    let t = color_hex(c);
    let d5 = (n / 0x10_0000) % 16;
    let d4 = (n / 0x1_0000) % 16;
    let d3 = (n / 0x1000) % 16;
    let d2 = (n / 0x100) % 16;
    let d1 = (n / 0x10) % 16;
    let d0 = n % 16;
    lemma_hex_digit_value(d5);
    lemma_hex_digit_value(d4);
    lemma_hex_digit_value(d3);
    lemma_hex_digit_value(d2);
    lemma_hex_digit_value(d1);
    lemma_hex_digit_value(d0);
    assert(unsigned_digits(t) == t);
    assert(all_digits(t, 16));
    assert(t.take(1).drop_last() =~= t.take(0));
    assert(t.take(2).drop_last() =~= t.take(1));
    assert(t.take(3).drop_last() =~= t.take(2));
    assert(t.take(4).drop_last() =~= t.take(3));
    assert(t.take(5).drop_last() =~= t.take(4));
    assert(t.drop_last() =~= t.take(5));
    assert(digits_value(t.take(0), 16) == 0);
    assert(digits_value(t.take(1), 16) == d5);
    assert(digits_value(t.take(2), 16) == d5 * 16 + d4);
    assert(digits_value(t.take(3), 16) == (d5 * 16 + d4) * 16 + d3);
    assert(digits_value(t.take(4), 16) == ((d5 * 16 + d4) * 16 + d3) * 16 + d2);
    assert(digits_value(t.take(5), 16) == (((d5 * 16 + d4) * 16 + d3) * 16 + d2) * 16 + d1);
    assert(digits_value(t, 16) == ((((d5 * 16 + d4) * 16 + d3) * 16 + d2) * 16 + d1) * 16 + d0);
    let n1 = n / 0x10;
    let n2 = n / 0x100;
    let n3 = n / 0x1000;
    let n4 = n / 0x1_0000;
    let n5 = n / 0x10_0000;
    lemma_div_denominator(n as int, 0x10, 0x10);
    lemma_div_denominator(n as int, 0x100, 0x10);
    lemma_div_denominator(n as int, 0x1000, 0x10);
    lemma_div_denominator(n as int, 0x1_0000, 0x10);
    lemma_mod_breakdown(n as int, 0x10, 0x10_0000);
    lemma_mod_breakdown(n1 as int, 0x10, 0x1_0000);
    lemma_mod_breakdown(n2 as int, 0x10, 0x1000);
    lemma_mod_breakdown(n3 as int, 0x10, 0x100);
    lemma_mod_breakdown(n4 as int, 0x10, 0x10);
    assert(n % 0x100_0000 == 16 * (n1 % 0x10_0000) + d0);
    assert(n1 % 0x10_0000 == 16 * (n2 % 0x1_0000) + d1);
    assert(n2 % 0x1_0000 == 16 * (n3 % 0x1000) + d2);
    assert(n3 % 0x1000 == 16 * (n4 % 0x100) + d3);
    assert(n4 % 0x100 == 16 * (n5 % 0x10) + d4);
}

} // verus!
