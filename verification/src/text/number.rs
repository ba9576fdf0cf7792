use vstd::prelude::*;
use crate::text::ascii::{DIGIT_0, DIGIT_9, LOWER_A, LOWER_F, UPPER_A, UPPER_F};

verus! {

/// Whether `b` is one of `0` to `9`.
pub open spec fn is_dec_digit(b: u8) -> bool {
    DIGIT_0 <= b <= DIGIT_9
}

/// Whether `b` is a decimal digit or a letter `a` to `f` in either case.
pub open spec fn is_hex_digit(b: u8) -> bool {
    is_dec_digit(b) || LOWER_A <= b <= LOWER_F || UPPER_A <= b <= UPPER_F
}

/// Whether `b` is a digit in the radix, which is 10 or 16.
pub open spec fn is_digit(b: u8, radix: nat) -> bool {
    if radix == 16 {
        is_hex_digit(b)
    } else {
        is_dec_digit(b)
    }
}

/// What the digit `b` counts for; 0 where `b` is no digit.
pub open spec fn digit_value(b: u8) -> nat {
    if is_dec_digit(b) {
        (b - DIGIT_0) as nat
    } else if LOWER_A <= b <= LOWER_F {
        (b - LOWER_A + 10) as nat
    } else if UPPER_A <= b <= UPPER_F {
        (b - UPPER_A + 10) as nat
    } else {
        0
    }
}

/// Whether `s` is made of digits in the radix alone.
pub open spec fn all_digits(s: Seq<u8>, radix: nat) -> bool {
    forall|i: int| 0 <= i < s.len() ==> is_digit(#[trigger] s[i], radix)
}

/// The number that the digits of `s` write in the radix, most significant
/// digit first.
pub open spec fn number_value(s: Seq<u8>, radix: nat) -> nat
    decreases s.len(),
{
    if s.len() == 0 {
        0
    } else {
        number_value(s.drop_last(), radix) * radix + digit_value(s.last())
    }
}

/// The number that `s` writes, where `s` is a non-empty run of digits whose
/// value does not exceed `limit`.
pub open spec fn bounded_number(s: Seq<u8>, radix: nat, limit: nat) -> Option<nat> {
    if s.len() > 0 && all_digits(s, radix) && number_value(s, radix) <= limit {
        Some(number_value(s, radix))
    } else {
        None
    }
}

/// The digit that writes `d`, with lower-case letters from ten on.
pub open spec fn digit_byte(d: nat) -> u8 {
    if d < 10 {
        (DIGIT_0 + d) as u8
    } else {
        (LOWER_A + d - 10) as u8
    }
}

/// The shortest way to write `n` in the radix: no leading zero but for `0`
/// itself.
pub open spec fn number_text(n: nat, radix: nat) -> Seq<u8>
    decreases n,
    via number_text_decreases
{
    if n < radix || radix < 2 {
        seq![digit_byte(n)]
    } else {
        number_text(n / radix, radix).push(digit_byte(n % radix))
    }
}

#[via_fn]
proof fn number_text_decreases(n: nat, radix: nat) {
    if n >= radix && radix >= 2 {
        assert(n / radix < n) by (nonlinear_arith)
            requires
                n >= radix,
                radix >= 2,
        ;
    }
}

/// A prefix of a run of digits writes no more than the whole run.
pub proof fn lemma_prefix_value(s: Seq<u8>, i: int, radix: nat)
    requires
        0 <= i <= s.len(),
        radix == 10 || radix == 16,
    ensures
        number_value(s.take(i), radix) <= number_value(s, radix),
    decreases s.len() - i,
{
    if i == s.len() {
        assert(s.take(i) =~= s);
    } else {
        lemma_prefix_value(s, i + 1, radix);
        assert(s.take(i + 1).drop_last() =~= s.take(i));
    }
}

/// What `number_text` writes reads back as the number, in digits of the
/// radix, with no leading zero.
pub proof fn lemma_number_text(n: nat, radix: nat)
    requires
        radix == 10 || radix == 16,
    ensures
        number_text(n, radix).len() >= 1,
        all_digits(number_text(n, radix), radix),
        number_value(number_text(n, radix), radix) == n,
        number_text(n, radix).len() == 1 <==> n < radix,
        n > 0 ==> number_text(n, radix)[0] != DIGIT_0,
        forall|i: int|
            0 <= i < number_text(n, radix).len() ==> !(UPPER_A <= #[trigger] number_text(
                n,
                radix,
            )[i] <= UPPER_F),
    decreases n,
{
    let t = number_text(n, radix);
    if n < radix {
        assert(t.drop_last() =~= Seq::<u8>::empty());
        assert(number_value(t.drop_last(), radix) == 0);
    } else {
        let q = n / radix;
        lemma_number_text(q, radix);
        assert(t.drop_last() =~= number_text(q, radix));
        assert(q * radix + n % radix == n) by {
            if radix == 10 {
                assert(q * 10 + n % 10 == n);
            } else {
                assert(q * 16 + n % 16 == n);
            }
        }
        assert(t[0] == number_text(q, radix)[0]);
    }
}

/// How long `number_text` gets below the first five powers of ten and the
/// first four of sixteen.
pub proof fn lemma_number_text_len(n: nat, radix: nat)
    requires
        radix == 10 || radix == 16,
    ensures
        radix == 10 && n < 100 ==> number_text(n, radix).len() <= 2,
        radix == 10 && n < 1000 ==> number_text(n, radix).len() <= 3,
        radix == 10 && n < 100000 ==> number_text(n, radix).len() <= 5,
        radix == 16 && n < 0x10000 ==> number_text(n, radix).len() <= 4,
{
    reveal_with_fuel(number_text, 6);
    if radix == 10 {
        assert(number_text(n, 10).len() >= 1);
    } else {
        assert(number_text(n, 16).len() >= 1);
    }
}

/// Up to four hexadecimal digits write a number below sixteen to the power
/// of their count.
pub proof fn lemma_hex_value_bound(s: Seq<u8>)
    requires
        s.len() <= 4,
        all_digits(s, 16),
    ensures
        s.len() <= 0 ==> number_value(s, 16) < 1,
        s.len() <= 1 ==> number_value(s, 16) < 0x10,
        s.len() <= 2 ==> number_value(s, 16) < 0x100,
        s.len() <= 3 ==> number_value(s, 16) < 0x1000,
        s.len() <= 4 ==> number_value(s, 16) < 0x10000,
    decreases s.len(),
{
    if s.len() > 0 {
        lemma_hex_value_bound(s.drop_last());
        assert(is_digit(s[s.len() - 1], 16));
    }
}

/// What the byte counts for as a digit in the radix, if it is one.
pub fn digit_of(b: u8, radix: u32) -> (r: Option<u32>)
    requires
        radix == 10 || radix == 16,
    ensures
        r is Some <==> is_digit(b, radix as nat),
        r matches Some(d) ==> d == digit_value(b) && d < radix,
{
    if b >= DIGIT_0 && b <= DIGIT_9 {
        Some((b - DIGIT_0) as u32)
    } else if radix == 16 && b >= LOWER_A && b <= LOWER_F {
        Some((b - LOWER_A) as u32 + 10)
    } else if radix == 16 && b >= UPPER_A && b <= UPPER_F {
        Some((b - UPPER_A) as u32 + 10)
    } else {
        None
    }
}

/// Reads `s` as a number in the radix that must not exceed `limit`.
pub fn parse_number(s: &[u8], radix: u32, limit: u32) -> (r: Option<u32>)
    requires
        radix == 10 || radix == 16,
    ensures
        match r {
            Some(n) => bounded_number(s@, radix as nat, limit as nat) == Some(n as nat),
            None => bounded_number(s@, radix as nat, limit as nat) is None,
        },
{
    if s.len() == 0 {
        return None;
    }
    let mut acc: u64 = 0;
    let mut i: usize = 0;
    while i < s.len()
        invariant
            radix == 10 || radix == 16,
            0 <= i <= s.len(),
            all_digits(s@.take(i as int), radix as nat),
            acc == number_value(s@.take(i as int), radix as nat),
            acc <= limit,
        decreases s.len() - i,
    {
        let ghost before = s@.take(i as int);
        let ghost upto = s@.take(i as int + 1);
        proof {
            assert(upto.drop_last() =~= before);
            assert(upto.last() == s@[i as int]);
        }
        match digit_of(s[i], radix) {
            None => {
                return None;
            },
            Some(d) => {
                assert(acc * radix <= 0xFFFF_FFFF * 16) by (nonlinear_arith)
                    requires
                        acc <= 0xFFFF_FFFF,
                        radix <= 16,
                ;
                let next: u64 = acc * (radix as u64) + (d as u64);
                if next > limit as u64 {
                    proof {
                        lemma_prefix_value(s@, i as int + 1, radix as nat);
                    }
                    return None;
                }
                acc = next;
            },
        }
        i += 1;
    }
    proof {
        assert(s@.take(i as int) =~= s@);
    }
    Some(acc as u32)
}

/// Appends the shortest text of `n` in the radix to `out`.
pub fn push_number(out: &mut Vec<u8>, n: u32, radix: u32)
    requires
        radix == 10 || radix == 16,
    ensures
        final(out)@ == old(out)@ + number_text(n as nat, radix as nat),
    decreases n,
{
    if n >= radix {
        push_number(out, n / radix, radix);
    }
    let d: u32 = n % radix;
    let b: u8 = if d < 10 {
        DIGIT_0 + d as u8
    } else {
        LOWER_A + (d - 10) as u8
    };
    out.push(b);
    proof {
        let t = number_text(n as nat, radix as nat);
        if n >= radix {
            assert(old(out)@ + number_text((n / radix) as nat, radix as nat).push(b) =~= (old(out)@
                + number_text((n / radix) as nat, radix as nat)).push(b));
        } else {
            assert(old(out)@ + seq![b] =~= old(out)@.push(b));
        }
    }
}

} // verus!
