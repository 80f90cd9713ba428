use vstd::prelude::*;

verus! {

// ASCII codes used by the formatters.
pub const MINUS: u8 = 45;
pub const DOT: u8 = 46;
pub const ZERO: u8 = 48;

/// The decimal digits of `n`, most significant first (`"0"` for 0).
pub open spec fn dec_digits(n: nat) -> Seq<u8>
    decreases n,
{
    if n < 10 {
        seq![(48 + n) as u8]
    } else {
        dec_digits(n / 10).push((48 + n % 10) as u8)
    }
}

/// The `w` least-significant decimal digits of `n`, zero-padded to width `w`.
pub open spec fn dec_width(n: nat, w: nat) -> Seq<u8>
    decreases w,
{
    if w == 0 {
        Seq::empty()
    } else {
        dec_width(n / 10, (w - 1) as nat).push((48 + n % 10) as u8)
    }
}

/// The number a digit string denotes in base ten.
pub open spec fn parse_dec(s: Seq<u8>) -> int
    decreases s.len(),
{
    if s.len() == 0 {
        0
    } else {
        parse_dec(s.drop_last()) * 10 + (s.last() - 48)
    }
}

pub open spec fn pow10(w: nat) -> nat
    decreases w,
{
    if w == 0 {
        1
    } else {
        10 * pow10((w - 1) as nat)
    }
}

/// A fractional part `f` of width `w`, with its trailing zeros trimmed
/// (at least one digit stays).
pub open spec fn frac_trim(f: nat, w: nat) -> Seq<u8>
    decreases w,
{
    if w <= 1 {
        dec_width(f, w)
    } else if f % 10 == 0 {
        frac_trim(f / 10, (w - 1) as nat)
    } else {
        dec_width(f, w)
    }
}

/// Decimal text of the fixed-point value `v / den`, where `den == pow10(w)`:
/// the whole part, then, when the remainder is not zero, a point and the
/// fractional digits with trailing zeros trimmed.
pub open spec fn dec_fixed(v: nat, den: nat, w: nat) -> Seq<u8> {
    if v % den == 0 {
        dec_digits(v / den)
    } else {
        dec_digits(v / den) + seq![DOT] + frac_trim(v % den, w)
    }
}

/// Decimal text of a length given in milli-points, as a number of points.
pub open spec fn dec_mpt(v: int) -> Seq<u8> {
    if v < 0 {
        seq![MINUS] + dec_fixed((-v) as nat, 1000, 3)
    } else {
        dec_fixed(v as nat, 1000, 3)
    }
}

/// A color channel byte scaled to millionths of the unit interval,
/// rounded to the nearest.
pub open spec fn color_scaled(c: nat) -> nat {
    (c * 1000000 + 127) / 255
}

/// Decimal text of the normalized color channel `c / 255`.
pub open spec fn color_frac(c: nat) -> Seq<u8> {
    dec_fixed(color_scaled(c), 1000000, 6)
}

pub proof fn lemma_pow10_pos(w: nat)
    ensures
        pow10(w) >= 1,
    decreases w,
{
    if w > 0 {
        lemma_pow10_pos((w - 1) as nat);
    }
}

/// A zero-padded field of width `w` is exactly `w` bytes long.
pub proof fn lemma_dec_width_len(n: nat, w: nat)
    ensures
        dec_width(n, w).len() == w,
    decreases w,
{
    if w > 0 {
        lemma_dec_width_len(n / 10, (w - 1) as nat);
    }
}

/// A zero-padded field of width `w` parses back to the number written into
/// it, modulo the field's capacity.
pub proof fn lemma_parse_dec_width(n: nat, w: nat)
    ensures
        parse_dec(dec_width(n, w)) == (n % pow10(w)) as int,
    decreases w,
{
    if w == 0 {
        assert(n % 1 == 0) by {
            vstd::arithmetic::div_mod::lemma_mod_self_0(1);
            vstd::arithmetic::div_mod::lemma_small_mod(0, 1);
            vstd::arithmetic::div_mod::lemma_fundamental_div_mod_converse(n as int, 1, n as int, 0);
        }
    } else {
        lemma_parse_dec_width(n / 10, (w - 1) as nat);
        lemma_pow10_pos((w - 1) as nat);
        let s = dec_width(n, w);
        assert(s.drop_last() =~= dec_width(n / 10, (w - 1) as nat));
        let m = pow10((w - 1) as nat) as int;
        let q = (n as int / 10) / m;
        let r = (n as int / 10) % m;
        vstd::arithmetic::div_mod::lemma_fundamental_div_mod(n as int, 10);
        vstd::arithmetic::div_mod::lemma_fundamental_div_mod(n as int / 10, m);
        assert(n as int == (10 * m) * q + (10 * r + n as int % 10)) by (nonlinear_arith)
            requires
                n as int == 10 * (n as int / 10) + n as int % 10,
                n as int / 10 == m * q + r,
        ;
        vstd::arithmetic::div_mod::lemma_fundamental_div_mod_converse(
            n as int,
            10 * m,
            q,
            10 * r + n as int % 10,
        );
        assert(parse_dec(s) == r * 10 + n as int % 10);
    }
}

/// A number small enough for its field parses back exactly.
pub proof fn lemma_dec_width_parses(n: nat, w: nat)
    requires
        n < pow10(w),
    ensures
        parse_dec(dec_width(n, w)) == n,
{
    lemma_parse_dec_width(n, w);
    lemma_pow10_pos(w);
    vstd::arithmetic::div_mod::lemma_small_mod(n, pow10(w));
}

/// Channel byte 255 normalizes to exactly `"1"`, and channel byte 0 to
/// exactly `"0"`.
pub proof fn lemma_color_endpoints()
    ensures
        color_frac(255) == seq![(ZERO + 1) as u8],
        color_frac(0) == seq![ZERO],
{
    vstd::arithmetic::div_mod::lemma_fundamental_div_mod_converse(255000127, 255, 1000000, 127);
    assert(color_scaled(255) == 1000000);
    vstd::arithmetic::div_mod::lemma_fundamental_div_mod_converse(1000000, 1000000, 1, 0);
    assert(color_frac(255) =~= seq![(ZERO + 1) as u8]);
    vstd::arithmetic::div_mod::lemma_fundamental_div_mod_converse(127, 255, 0, 127);
    assert(color_scaled(0) == 0);
    vstd::arithmetic::div_mod::lemma_fundamental_div_mod_converse(0, 1000000, 0, 0);
    assert(color_frac(0) =~= seq![ZERO]);
}

pub fn push_dec(out: &mut Vec<u8>, n: u64)
    ensures
        final(out)@ == old(out)@ + dec_digits(n as nat),
    decreases n,
{
    if n < 10 {
        out.push(48 + n as u8);
    } else {
        push_dec(out, n / 10);
        out.push(48 + (n % 10) as u8);
    }
    proof {
        assert(out@ =~= old(out)@ + dec_digits(n as nat));
    }
}

pub fn push_dec_width(out: &mut Vec<u8>, n: u64, w: u32)
    ensures
        final(out)@ == old(out)@ + dec_width(n as nat, w as nat),
    decreases w,
{
    if w > 0 {
        push_dec_width(out, n / 10, w - 1);
        out.push(48 + (n % 10) as u8);
    }
    proof {
        assert(out@ =~= old(out)@ + dec_width(n as nat, w as nat));
    }
}

fn push_frac_trim(out: &mut Vec<u8>, f: u64, w: u32)
    ensures
        final(out)@ == old(out)@ + frac_trim(f as nat, w as nat),
    decreases w,
{
    if w <= 1 {
        push_dec_width(out, f, w);
    } else if f % 10 == 0 {
        push_frac_trim(out, f / 10, w - 1);
    } else {
        push_dec_width(out, f, w);
    }
}

pub fn push_fixed(out: &mut Vec<u8>, v: u64, den: u64, w: u32)
    requires
        den > 0,
    ensures
        final(out)@ == old(out)@ + dec_fixed(v as nat, den as nat, w as nat),
{
    push_dec(out, v / den);
    if v % den != 0 {
        out.push(DOT);
        push_frac_trim(out, v % den, w);
        proof {
            assert(out@ =~= old(out)@ + dec_fixed(v as nat, den as nat, w as nat));
        }
    }
}

pub fn push_mpt(out: &mut Vec<u8>, v: i64)
    requires
        v > i64::MIN,
    ensures
        final(out)@ == old(out)@ + dec_mpt(v as int),
{
    if v < 0 {
        out.push(MINUS);
        push_fixed(out, (-v) as u64, 1000, 3);
        proof {
            assert(out@ =~= old(out)@ + dec_mpt(v as int));
        }
    } else {
        push_fixed(out, v as u64, 1000, 3);
    }
}

pub fn push_color_frac(out: &mut Vec<u8>, c: u8)
    ensures
        final(out)@ == old(out)@ + color_frac(c as nat),
{
    let scaled: u64 = (c as u64 * 1000000 + 127) / 255;
    push_fixed(out, scaled, 1000000, 6);
}

/// Copy the bytes of `s` onto the end of `out`.
pub fn push_bytes(out: &mut Vec<u8>, s: &Vec<u8>)
    ensures
        final(out)@ == old(out)@ + s@,
{
    let mut i: usize = 0;
    while i < s.len()
        invariant
            i <= s@.len(),
            out@ == old(out)@ + s@.subrange(0, i as int),
        decreases s@.len() - i,
    {
        out.push(s[i]);
        i += 1;
        proof {
            assert(out@ =~= old(out)@ + s@.subrange(0, i as int));
        }
    }
    proof {
        assert(s@.subrange(0, s@.len() as int) =~= s@);
    }
}

} // verus!
