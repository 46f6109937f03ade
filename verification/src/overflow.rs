//! Exact tests of whether a decimal sum, product or quotient stays within
//! `Decimal::MAX`.  The operands' mantissas have 96 bits and their scales at
//! most 28, so the quantities compared have up to 192 bits: they are held as
//! two 96-bit digits.
use crate::decimal::{
    abs_int, add_in_range, aligned, common_scale, div_in_range, lemma_pow10_add, lemma_pow10_pos,
    mul_in_range, pow10, Dec, MAX_MANTISSA,
};
use vstd::prelude::*;

verus! {

/// `2^96`, the base of the digits.
pub open spec fn digit_base() -> nat {
    0x1_0000_0000_0000_0000_0000_0000
}

/// The number with high digit `h` and low digit `l`.
pub open spec fn wide_value(h: nat, l: nat) -> nat {
    h * digit_base() + l
}

/// The product of two numbers below `2^96`, as a high and a low digit.
fn mul_wide(x: u128, y: u128) -> (r: (u128, u128))
    requires
        x < digit_base(),
        y < digit_base(),
    ensures
        r.1 < digit_base(),
        r.0 < digit_base(),
        x * y == wide_value(r.0 as nat, r.1 as nat),
{
    let b: u128 = 0x1_0000_0000_0000;
    let x1 = x / b;
    let x0 = x % b;
    let y1 = y / b;
    let y0 = y % b;
    proof {
        vstd::arithmetic::div_mod::lemma_fundamental_div_mod(x as int, b as int);
        vstd::arithmetic::div_mod::lemma_fundamental_div_mod(y as int, b as int);
        assert(x1 < b) by (nonlinear_arith)
            requires
                x == b * x1 + x0,
                x0 >= 0,
                x < b * b,
                b > 0,
        ;
        assert(y1 < b) by (nonlinear_arith)
            requires
                y == b * y1 + y0,
                y0 >= 0,
                y < b * b,
                b > 0,
        ;
        assert(x1 * y1 < b * b) by (nonlinear_arith)
            requires
                x1 < b,
                y1 < b,
        ;
        assert(x1 * y0 < b * b) by (nonlinear_arith)
            requires
                x1 < b,
                y0 < b,
        ;
        assert(x0 * y1 < b * b) by (nonlinear_arith)
            requires
                x0 < b,
                y1 < b,
        ;
        assert(x0 * y0 < b * b) by (nonlinear_arith)
            requires
                x0 < b,
                y0 < b,
        ;
    }
    let hh = x1 * y1;
    let m = x1 * y0 + x0 * y1;
    let ll = x0 * y0;
    let m_hi = m / b;
    let m_lo = m % b;
    proof {
        vstd::arithmetic::div_mod::lemma_fundamental_div_mod(m as int, b as int);
        assert(m_lo * b < b * b) by (nonlinear_arith)
            requires
                m_lo < b,
                b > 0,
        ;
    }
    let rest = m_lo * b + ll;
    let d: u128 = 0x1_0000_0000_0000_0000_0000_0000;
    let carry = rest / d;
    let l = rest % d;
    proof {
        vstd::arithmetic::div_mod::lemma_fundamental_div_mod(rest as int, d as int);
        assert(carry <= 1);
        assert(m_hi <= 2 * b);
    }
    let h = hh + m_hi + carry;
    proof {
        assert(d == b * b);
        assert(x * y == hh * d + m * b + ll) by (nonlinear_arith)
            requires
                x == b * x1 + x0,
                y == b * y1 + y0,
                hh == x1 * y1,
                m == x1 * y0 + x0 * y1,
                ll == x0 * y0,
                d == b * b,
        ;
        assert(m * b == m_hi * d + m_lo * b) by (nonlinear_arith)
            requires
                m == b * m_hi + m_lo,
                d == b * b,
        ;
        assert(x * y == h * d + l);
        assert(x * y < d * d) by (nonlinear_arith)
            requires
                x < d,
                y < d,
        ;
        assert(h < d) by (nonlinear_arith)
            requires
                x * y == h * d + l,
                x * y < d * d,
                l >= 0,
                d > 0,
        ;
    }
    (h, l)
}

/// Compares two numbers given as digits: whether the first is at most the second.
fn wide_le(h1: u128, l1: u128, h2: u128, l2: u128) -> (r: bool)
    requires
        l1 < digit_base(),
        l2 < digit_base(),
    ensures
        r == (wide_value(h1 as nat, l1 as nat) <= wide_value(h2 as nat, l2 as nat)),
{
    let ghost d = digit_base();
    if h1 < h2 {
        assert(wide_value(h1 as nat, l1 as nat) < wide_value(h2 as nat, l2 as nat)) by (nonlinear_arith)
            requires
                h1 < h2,
                l1 < d,
                d > 0,
                wide_value(h1 as nat, l1 as nat) == h1 * d + l1,
                wide_value(h2 as nat, l2 as nat) == h2 * d + l2,
        ;
        true
    } else if h1 > h2 {
        assert(wide_value(h1 as nat, l1 as nat) > wide_value(h2 as nat, l2 as nat)) by (nonlinear_arith)
            requires
                h1 > h2,
                l2 < d,
                d > 0,
                wide_value(h1 as nat, l1 as nat) == h1 * d + l1,
                wide_value(h2 as nat, l2 as nat) == h2 * d + l2,
        ;
        false
    } else {
        l1 <= l2
    }
}

/// `10^a <= 10^b` when `a <= b`.
proof fn lemma_pow10_mono(a: nat, b: nat)
    requires
        a <= b,
    ensures
        pow10(a) <= pow10(b),
{
    lemma_pow10_add((b - a) as nat, a);
    lemma_pow10_pos((b - a) as nat);
    lemma_pow10_pos(a);
    assert(pow10((b - a) as nat) * pow10(a) >= pow10(a)) by (nonlinear_arith)
        requires
            pow10((b - a) as nat) >= 1,
            pow10(a) >= 1,
    ;
}

/// `10^28` is below `2^96`, and `10^29` above `Decimal::MAX`'s mantissa.
proof fn lemma_pow10_28_29()
    ensures
        pow10(28) == 10_000_000_000_000_000_000_000_000_000nat,
        pow10(28) < digit_base(),
        pow10(29) > MAX_MANTISSA,
{
    reveal_with_fuel(pow10, 30);
}

/// Multiplying by a positive factor keeps the sign and scales the magnitude.
proof fn lemma_abs_mul(m: int, k: int)
    requires
        k > 0,
    ensures
        abs_int(m * k) == abs_int(m) * k,
        m > 0 ==> m * k > 0,
        m < 0 ==> m * k < 0,
        m == 0 ==> m * k == 0,
{
    if m < 0 {
        assert(m * k < 0) by (nonlinear_arith)
            requires
                m < 0,
                k > 0,
        ;
        assert(-(m * k) == (-m) * k) by (nonlinear_arith);
    } else if m > 0 {
        assert(m * k > 0) by (nonlinear_arith)
            requires
                m > 0,
                k > 0,
        ;
    } else {
        assert(m * k == 0);
    }
}

/// `10^n`, for the scales a decimal can have.
fn pow10_u128(n: u32) -> (r: u128)
    requires
        n <= 28,
    ensures
        r == pow10(n as nat),
        r < digit_base(),
{
    let mut r: u128 = 1;
    let mut i: u32 = 0;
    proof {
        lemma_pow10_28_29();
        assert(pow10(0) == 1);
    }
    while i < n
        invariant
            i <= n,
            n <= 28,
            r == pow10(i as nat),
            pow10(28) < digit_base(),
        decreases n - i,
    {
        proof {
            lemma_pow10_mono((i + 1) as nat, 28);
            assert(pow10((i + 1) as nat) == 10 * pow10(i as nat));
        }
        r = r * 10;
        i = i + 1;
    }
    proof {
        lemma_pow10_mono(n as nat, 28);
    }
    r
}

/// The magnitude of a decimal's mantissa.
fn mag_u128(d: Dec) -> (r: u128)
    requires
        d.wf(),
    ensures
        r == d.mag(),
        r <= MAX_MANTISSA,
{
    if d.mantissa < 0 {
        (-d.mantissa) as u128
    } else {
        d.mantissa as u128
    }
}

/// Whether `|a * b|` stays within `Decimal::MAX`, so that `a * b` does not overflow.
pub fn fits_mul(a: Dec, b: Dec) -> (r: bool)
    requires
        a.wf(),
        b.wf(),
    ensures
        r == mul_in_range(a, b),
{
    let am = mag_u128(a);
    let bm = mag_u128(b);
    let p = a.scale + b.scale;
    proof {
        lemma_pow10_add(a.scale as nat, b.scale as nat);
        lemma_pow10_28_29();
    }
    let ghost mx = MAX_MANTISSA as int;
    let ghost pa = pow10(a.scale as nat);
    let ghost pb = pow10(b.scale as nat);
    if p > 28 {
        proof {
            lemma_pow10_mono(29, p as nat);
            assert(am * bm <= mx * (pa * pb)) by (nonlinear_arith)
                requires
                    am <= mx,
                    bm <= mx,
                    mx < pa * pb,
                    0 <= am,
                    0 <= bm,
            ;
            assert(mx * (pa * pb) == mx * pa * pb) by (nonlinear_arith);
        }
        return true;
    }
    let t = pow10_u128(p);
    let mxu: u128 = 0xFFFF_FFFF_FFFF_FFFF_FFFF_FFFFu128;
    let (h1, l1) = mul_wide(am, bm);
    let (h2, l2) = mul_wide(mxu, t);
    proof {
        assert(mx * (pa * pb) == mx * pa * pb) by (nonlinear_arith);
    }
    wide_le(h1, l1, h2, l2)
}

/// Whether `|a / b|` stays within `Decimal::MAX`, so that `a / b` does not overflow.
pub fn fits_div(a: Dec, b: Dec) -> (r: bool)
    requires
        a.wf(),
        b.wf(),
        b.mantissa != 0,
    ensures
        r == div_in_range(a, b),
{
    let am = mag_u128(a);
    let bm = mag_u128(b);
    let ghost mx = MAX_MANTISSA as int;
    let ghost pa = pow10(a.scale as nat);
    let ghost pb = pow10(b.scale as nat);
    proof {
        lemma_pow10_pos(a.scale as nat);
        lemma_pow10_pos(b.scale as nat);
    }
    if a.scale >= b.scale {
        proof {
            lemma_pow10_mono(b.scale as nat, a.scale as nat);
            assert(am * pb <= mx * pa * bm) by (nonlinear_arith)
                requires
                    0 <= am <= mx,
                    1 <= pb <= pa,
                    bm >= 1,
            {
                assert(am * pb <= mx * pb);
                assert(mx * pb <= mx * pa);
                assert(mx * pa <= mx * pa * bm);
            }
        }
        return true;
    }
    let e = b.scale - a.scale;
    let t = pow10_u128(e);
    let mxu: u128 = 0xFFFF_FFFF_FFFF_FFFF_FFFF_FFFFu128;
    let (h1, l1) = mul_wide(am, t);
    let (h2, l2) = mul_wide(mxu, bm);
    proof {
        lemma_pow10_add(e as nat, a.scale as nat);
        assert(pb == t * pa);
        assert((am * pb <= mx * pa * bm) == (am * t <= mx * bm)) by (nonlinear_arith)
            requires
                pb == t * pa,
                pa > 0,
        {
            if am * t <= mx * bm {
                assert(am * t * pa <= mx * bm * pa);
            } else {
                assert(am * t * pa > mx * bm * pa);
            }
        }
    }
    wide_le(h1, l1, h2, l2)
}

/// Whether `|a + b|` stays within `Decimal::MAX`, so that `a + b` does not overflow.
pub fn fits_add(a: Dec, b: Dec) -> (r: bool)
    requires
        a.wf(),
        b.wf(),
    ensures
        r == add_in_range(a, b),
{
    let am = mag_u128(a);
    let bm = mag_u128(b);
    let s = if a.scale >= b.scale {
        a.scale
    } else {
        b.scale
    };
    let ghost mx = MAX_MANTISSA as int;
    let ghost ka = pow10((s - a.scale) as nat);
    let ghost kb = pow10((s - b.scale) as nat);
    let ghost ps = pow10(s as nat);
    let ghost x = aligned(a, s as nat);
    let ghost y = aligned(b, s as nat);
    proof {
        assert(s == common_scale(a, b));
        lemma_pow10_pos((s - a.scale) as nat);
        lemma_pow10_pos((s - b.scale) as nat);
        lemma_pow10_mono((s - a.scale) as nat, s as nat);
        lemma_pow10_mono((s - b.scale) as nat, s as nat);
        lemma_abs_mul(a.mantissa as int, ka as int);
        lemma_abs_mul(b.mantissa as int, kb as int);
        assert(abs_int(x) <= mx * ps) by (nonlinear_arith)
            requires
                abs_int(x) == am * ka,
                0 <= am <= mx,
                1 <= ka <= ps,
        ;
        assert(abs_int(y) <= mx * ps) by (nonlinear_arith)
            requires
                abs_int(y) == bm * kb,
                0 <= bm <= mx,
                1 <= kb <= ps,
        ;
    }
    if a.mantissa == 0 || b.mantissa == 0 || (a.mantissa < 0) != (b.mantissa < 0) {
        return true;
    }
    let ta = pow10_u128(s - a.scale);
    let tb = pow10_u128(s - b.scale);
    let (h1, l1) = mul_wide(am, ta);
    let (h2, l2) = mul_wide(bm, tb);
    let d: u128 = 0x1_0000_0000_0000_0000_0000_0000;
    let lsum = l1 + l2;
    let h = h1 + h2 + lsum / d;
    let l = lsum % d;
    let t = pow10_u128(s);
    let mxu: u128 = 0xFFFF_FFFF_FFFF_FFFF_FFFF_FFFFu128;
    let (h3, l3) = mul_wide(mxu, t);
    proof {
        vstd::arithmetic::div_mod::lemma_fundamental_div_mod(lsum as int, d as int);
        assert(abs_int(x + y) == am * ka + bm * kb);
        assert(wide_value(h as nat, l as nat) == am * ka + bm * kb);
    }
    wide_le(h, l, h3, l3)
}

} // verus!
