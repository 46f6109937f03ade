//! Fixed-point decimals as `rust_decimal` represents them: a 96-bit mantissa, a
//! base-10 scale between 0 and 28 and a sign flag (which may mark a zero as
//! negative).  Arithmetic is delegated to `rust_decimal`; the contracts state
//! what each operation gives in terms of the plain representation.
use rust_decimal::prelude::ToPrimitive;
use rust_decimal::Decimal;
use vstd::prelude::*;

verus! {

/// Largest mantissa magnitude a decimal can hold (2^96 - 1).
pub const MAX_MANTISSA: i128 = 0xFFFF_FFFF_FFFF_FFFF_FFFF_FFFFi128;

/// Largest scale a decimal can carry.
pub const MAX_SCALE: u32 = 28u32;

/// `10^n`.
pub open spec fn pow10(n: nat) -> nat
    decreases n,
{
    if n == 0 {
        1
    } else {
        10 * pow10((n - 1) as nat)
    }
}

/// Absolute value of an integer.
pub open spec fn abs_int(x: int) -> nat {
    if x < 0 {
        (-x) as nat
    } else {
        x as nat
    }
}

/// A decimal number `mantissa / 10^scale`, with the sign flag kept apart so
/// that a negative zero can be told from zero.
#[derive(Clone, Copy, Debug)]
pub struct Dec {
    pub mantissa: i128,
    pub scale: u32,
    pub negative: bool,
}

impl Dec {
    /// The representation invariant of `rust_decimal::Decimal`.
    pub open spec fn wf(self) -> bool {
        &&& -MAX_MANTISSA <= self.mantissa <= MAX_MANTISSA
        &&& self.scale <= MAX_SCALE
        &&& self.mantissa > 0 ==> !self.negative
        &&& self.mantissa < 0 ==> self.negative
    }

    /// Magnitude of the mantissa.
    pub open spec fn mag(self) -> nat {
        abs_int(self.mantissa as int)
    }

    /// The decimal with the given mantissa and scale (`Decimal::from_i128_with_scale`).
    pub open spec fn spec_with_scale(mantissa: int, scale: nat) -> Dec {
        Dec { mantissa: mantissa as i128, scale: scale as u32, negative: mantissa < 0 }
    }

    /// Zero with scale 0 and a positive sign (`Decimal::ZERO`).
    pub open spec fn spec_zero() -> Dec {
        Dec { mantissa: 0, scale: 0, negative: false }
    }

    /// One (`Decimal::ONE`).
    pub open spec fn spec_one() -> Dec {
        Dec { mantissa: 1, scale: 0, negative: false }
    }

    /// Builds `mantissa / 10^scale`.
    pub fn new(mantissa: i64, scale: u32) -> (r: Dec)
        requires
            scale <= MAX_SCALE,
        ensures
            r == Dec::spec_with_scale(mantissa as int, scale as nat),
            r.wf(),
    {
        Dec { mantissa: mantissa as i128, scale, negative: mantissa < 0 }
    }

    /// Builds `mantissa / 10^scale` from a mantissa of up to 96 bits.
    pub fn from_i128_with_scale(mantissa: i128, scale: u32) -> (r: Dec)
        requires
            scale <= MAX_SCALE,
            -MAX_MANTISSA <= mantissa <= MAX_MANTISSA,
        ensures
            r == Dec::spec_with_scale(mantissa as int, scale as nat),
            r.wf(),
    {
        Dec { mantissa, scale, negative: mantissa < 0 }
    }

    /// The integer `n` as a decimal of scale 0 (`Decimal::from(u64)`).
    pub fn from_u64(n: u64) -> (r: Dec)
        ensures
            r == Dec::spec_with_scale(n as int, 0),
            r.wf(),
    {
        Dec { mantissa: n as i128, scale: 0, negative: false }
    }

    /// Zero (`Decimal::ZERO`).
    pub fn zero() -> (r: Dec)
        ensures
            r == Dec::spec_zero(),
            r.wf(),
    {
        Dec { mantissa: 0, scale: 0, negative: false }
    }

    /// One (`Decimal::ONE`).
    pub fn one() -> (r: Dec)
        ensures
            r == Dec::spec_one(),
            r.wf(),
    {
        Dec { mantissa: 1, scale: 0, negative: false }
    }

    /// True when the sign flag is set, also for a negative zero (`Decimal::is_sign_negative`).
    pub fn is_sign_negative(&self) -> (r: bool)
        ensures
            r == self.negative,
    {
        self.negative
    }

    /// True when the value is zero, whatever its sign and scale (`Decimal::is_zero`).
    pub fn is_zero(&self) -> (r: bool)
        ensures
            r == (self.mantissa == 0),
    {
        self.mantissa == 0
    }

    /// Number of decimal places of the representation (`Decimal::scale`).
    pub fn scale(&self) -> (r: u32)
        ensures
            r == self.scale,
    {
        self.scale
    }

    /// The signed mantissa (`Decimal::mantissa`).
    pub fn mantissa(&self) -> (r: i128)
        ensures
            r == self.mantissa,
    {
        self.mantissa
    }
}

/// `a < b` as rationals.
pub open spec fn dec_lt_spec(a: Dec, b: Dec) -> bool {
    a.mantissa * pow10(b.scale as nat) < b.mantissa * pow10(a.scale as nat)
}

/// `a == b` as rationals.
pub open spec fn dec_eq_spec(a: Dec, b: Dec) -> bool {
    a.mantissa * pow10(b.scale as nat) == b.mantissa * pow10(a.scale as nat)
}

/// The signed integer whose magnitude is `mag` and whose sign is `negative`.
pub open spec fn signed(negative: bool, mag: nat) -> int {
    if negative {
        -(mag as int)
    } else {
        mag as int
    }
}

/// How many times a mantissa of magnitude `mag` can be multiplied by ten, up to
/// `diff` times, and stay within 96 bits.
pub open spec fn upscale_steps(mag: nat, diff: nat) -> nat
    decreases diff,
{
    if diff == 0 || mag * 10 > MAX_MANTISSA {
        0
    } else {
        1 + upscale_steps(mag * 10, (diff - 1) as nat)
    }
}

/// `d.trunc_with_scale(s)`: drops the digits beyond `s` decimal places without
/// rounding, or, when `d` has fewer places, pads with zeros as far as the
/// mantissa allows.  The sign flag is kept.
pub open spec fn trunc_with_scale_spec(d: Dec, s: nat) -> Dec {
    if d.scale == s {
        d
    } else if d.mantissa == 0 {
        Dec { mantissa: 0, scale: s as u32, negative: d.negative }
    } else if d.scale > s {
        Dec {
            mantissa: signed(d.negative, d.mag() / pow10((d.scale - s) as nat)) as i128,
            scale: s as u32,
            negative: d.negative,
        }
    } else {
        let k = upscale_steps(d.mag(), (s - d.scale) as nat);
        Dec { mantissa: (d.mantissa * pow10(k)) as i128, scale: (d.scale + k) as u32, negative: d.negative }
    }
}

/// Mantissa magnitude and scale once trailing zeros are stripped.
pub open spec fn strip_zeros(mag: nat, scale: nat) -> (nat, nat)
    decreases scale,
{
    if scale > 0 && mag % 10 == 0 {
        strip_zeros(mag / 10, (scale - 1) as nat)
    } else {
        (mag, scale)
    }
}

/// `d.normalize()`: trailing zeros stripped, and zero made positive with scale 0.
pub open spec fn normalize_spec(d: Dec) -> Dec {
    if d.mantissa == 0 {
        Dec::spec_zero()
    } else {
        let (m, s) = strip_zeros(d.mag(), d.scale as nat);
        Dec { mantissa: signed(d.negative, m) as i128, scale: s as u32, negative: d.negative }
    }
}

/// `Decimal::to_u128`: none for a set sign flag, else the integer part.
pub open spec fn to_u128_spec(d: Dec) -> Option<u128> {
    if d.negative {
        None
    } else {
        Some((d.mag() / pow10(d.scale as nat)) as u128)
    }
}

/// `|a * b| <= Decimal::MAX`, as rationals.
pub open spec fn mul_in_range(a: Dec, b: Dec) -> bool {
    a.mag() * b.mag() <= MAX_MANTISSA * pow10(a.scale as nat) * pow10(b.scale as nat)
}

/// `|a / b| <= Decimal::MAX`, as rationals.
pub open spec fn div_in_range(a: Dec, b: Dec) -> bool {
    a.mag() * pow10(b.scale as nat) <= MAX_MANTISSA * pow10(a.scale as nat) * b.mag()
}

/// The two operands brought to their common scale `max(a.scale, b.scale)`.
pub open spec fn common_scale(a: Dec, b: Dec) -> nat {
    if a.scale >= b.scale { a.scale as nat } else { b.scale as nat }
}

/// `a`'s mantissa at scale `s >= a.scale`.
pub open spec fn aligned(a: Dec, s: nat) -> int {
    a.mantissa * pow10((s - a.scale) as nat)
}

/// The exact sum at the common scale, when the operands and the sum fit in 96 bits there.
pub open spec fn exact_sum(a: Dec, b: Dec) -> Option<int> {
    let s = common_scale(a, b);
    let x = aligned(a, s) + aligned(b, s);
    if abs_int(aligned(a, s)) <= MAX_MANTISSA && abs_int(aligned(b, s)) <= MAX_MANTISSA
        && abs_int(x) <= MAX_MANTISSA {
        Some(x)
    } else {
        None
    }
}

/// The exact difference at the common scale, when the operands and the difference fit in 96 bits there.
pub open spec fn exact_difference(a: Dec, b: Dec) -> Option<int> {
    let s = common_scale(a, b);
    let x = aligned(a, s) - aligned(b, s);
    if abs_int(aligned(a, s)) <= MAX_MANTISSA && abs_int(aligned(b, s)) <= MAX_MANTISSA
        && abs_int(x) <= MAX_MANTISSA {
        Some(x)
    } else {
        None
    }
}

/// `|a + b| <= Decimal::MAX`, as rationals.
pub open spec fn add_in_range(a: Dec, b: Dec) -> bool {
    let s = common_scale(a, b);
    abs_int(aligned(a, s) + aligned(b, s)) <= MAX_MANTISSA * pow10(s)
}

/// `|a - b| <= Decimal::MAX`, as rationals.
pub open spec fn sub_in_range(a: Dec, b: Dec) -> bool {
    let s = common_scale(a, b);
    abs_int(aligned(a, s) - aligned(b, s)) <= MAX_MANTISSA * pow10(s)
}

/// What `rust_decimal` gives for `a * b`.
pub uninterp spec fn decimal_mul(a: Dec, b: Dec) -> Dec;

/// What `rust_decimal` gives for `a / b`.
pub uninterp spec fn decimal_div(a: Dec, b: Dec) -> Dec;

/// What `rust_decimal` gives for `a + b`.
pub uninterp spec fn decimal_add(a: Dec, b: Dec) -> Dec;

/// What `rust_decimal` gives for `a - b`.
pub uninterp spec fn decimal_sub(a: Dec, b: Dec) -> Dec;

/// Calls `Decimal::trunc_with_scale`.  Claimed: the result is
/// `trunc_with_scale_spec(d, s)`, as `rescale::<false>` in `ops/array.rs` computes it.
#[verifier::external_body]
pub(crate) fn dec_trunc_with_scale(d: Dec, s: u32) -> (r: Dec)
    requires
        d.wf(),
        s <= MAX_SCALE,
    ensures
        r == trunc_with_scale_spec(d, s as nat),
        r.wf(),
{
    let mut x = Decimal::from_i128_with_scale(d.mantissa, d.scale);
    x.set_sign_negative(d.negative);
    let y = x.trunc_with_scale(s);
    Dec { mantissa: y.mantissa(), scale: y.scale(), negative: y.is_sign_negative() }
}

/// Calls `Decimal::normalize`.  Claimed: trailing zeros are stripped and a zero
/// becomes positive with scale 0 (`normalize_spec`).
#[verifier::external_body]
pub(crate) fn dec_normalize(d: Dec) -> (r: Dec)
    requires
        d.wf(),
    ensures
        r == normalize_spec(d),
        r.wf(),
{
    let mut x = Decimal::from_i128_with_scale(d.mantissa, d.scale);
    x.set_sign_negative(d.negative);
    let y = x.normalize();
    Dec { mantissa: y.mantissa(), scale: y.scale(), negative: y.is_sign_negative() }
}

/// Calls `<Decimal as ToPrimitive>::to_u128`.  Claimed: `None` when the sign flag
/// is set, otherwise the magnitude of the integer part.
#[verifier::external_body]
pub(crate) fn dec_to_u128(d: Dec) -> (r: Option<u128>)
    requires
        d.wf(),
    ensures
        r == to_u128_spec(d),
{
    let mut x = Decimal::from_i128_with_scale(d.mantissa, d.scale);
    x.set_sign_negative(d.negative);
    x.to_u128()
}

/// Calls `Decimal`'s `<`.  Claimed: the operands are compared as rational numbers.
#[verifier::external_body]
pub(crate) fn dec_lt(a: Dec, b: Dec) -> (r: bool)
    requires
        a.wf(),
        b.wf(),
    ensures
        r == dec_lt_spec(a, b),
{
    let mut x = Decimal::from_i128_with_scale(a.mantissa, a.scale);
    x.set_sign_negative(a.negative);
    let mut y = Decimal::from_i128_with_scale(b.mantissa, b.scale);
    y.set_sign_negative(b.negative);
    x < y
}

/// Calls `Decimal`'s `*`, which panics when `|a * b|` exceeds `Decimal::MAX`.
/// Claimed: the sign flag of the result is set only when exactly one operand
/// has it set; a zero operand gives `Decimal::ZERO`; when the exact product fits in
/// 96 bits at scale `a.scale + b.scale <= 28`, the result is that exact product
/// (the sign being the exclusive or of the signs).  More generally, when the
/// exact product, its trailing zeros stripped, has a 96-bit mantissa at a
/// scale of at most 28, the result has that exact value (`rust_decimal` drops
/// only as many trailing digits as it must, and rounds only on non-zero ones).
/// Otherwise it rounds to fewer places; that case is only named.
#[verifier::external_body]
pub(crate) fn dec_mul(a: Dec, b: Dec) -> (r: Dec)
    requires
        a.wf(),
        b.wf(),
        mul_in_range(a, b),
    ensures
        r == decimal_mul(a, b),
        r.wf(),
        r.negative ==> a.negative != b.negative,
        (a.mantissa == 0 || b.mantissa == 0) ==> r == Dec::spec_zero(),
        (a.mantissa != 0 && b.mantissa != 0 && a.mag() * b.mag() <= MAX_MANTISSA && a.scale
            + b.scale <= MAX_SCALE) ==> r == (Dec {
            mantissa: (a.mantissa * b.mantissa) as i128,
            scale: (a.scale + b.scale) as u32,
            negative: a.negative != b.negative,
        }),
        (a.mantissa != 0 && b.mantissa != 0 && strip_zeros(a.mag() * b.mag(), (a.scale + b.scale) as nat).0
            <= MAX_MANTISSA && strip_zeros(a.mag() * b.mag(), (a.scale + b.scale) as nat).1 <= MAX_SCALE)
            ==> r.mantissa * pow10((a.scale + b.scale) as nat) == (a.mantissa * b.mantissa) * pow10(
            r.scale as nat,
        ) && r.negative == (a.negative != b.negative),
{
    let mut x = Decimal::from_i128_with_scale(a.mantissa, a.scale);
    x.set_sign_negative(a.negative);
    let mut y = Decimal::from_i128_with_scale(b.mantissa, b.scale);
    y.set_sign_negative(b.negative);
    let z = x * y;
    Dec { mantissa: z.mantissa(), scale: z.scale(), negative: z.is_sign_negative() }
}

/// Calls `Decimal`'s `/`, which panics on a zero divisor and when `|a / b|`
/// exceeds `Decimal::MAX`.  The quotient is rounded to as many places as fit;
/// its name is claimed, that it is a well-formed decimal, and that its sign flag
/// is set only when exactly one operand has it set.
#[verifier::external_body]
pub(crate) fn dec_div(a: Dec, b: Dec) -> (r: Dec)
    requires
        a.wf(),
        b.wf(),
        b.mantissa != 0,
        div_in_range(a, b),
    ensures
        r == decimal_div(a, b),
        r.wf(),
        r.negative ==> a.negative != b.negative,
{
    let mut x = Decimal::from_i128_with_scale(a.mantissa, a.scale);
    x.set_sign_negative(a.negative);
    let mut y = Decimal::from_i128_with_scale(b.mantissa, b.scale);
    y.set_sign_negative(b.negative);
    let z = x / y;
    Dec { mantissa: z.mantissa(), scale: z.scale(), negative: z.is_sign_negative() }
}

/// Calls `Decimal`'s `+`, which panics when `|a + b|` exceeds `Decimal::MAX`.
/// Claimed: when both operands and the sum fit in 96 bits at the common scale,
/// the result has the value of the exact sum.
#[verifier::external_body]
pub(crate) fn dec_add(a: Dec, b: Dec) -> (r: Dec)
    requires
        a.wf(),
        b.wf(),
        add_in_range(a, b),
    ensures
        r == decimal_add(a, b),
        r.wf(),
        exact_sum(a, b) is Some ==> dec_eq_spec(
            r,
            Dec::spec_with_scale(exact_sum(a, b)->0, common_scale(a, b)),
        ),
{
    let mut x = Decimal::from_i128_with_scale(a.mantissa, a.scale);
    x.set_sign_negative(a.negative);
    let mut y = Decimal::from_i128_with_scale(b.mantissa, b.scale);
    y.set_sign_negative(b.negative);
    let z = x + y;
    Dec { mantissa: z.mantissa(), scale: z.scale(), negative: z.is_sign_negative() }
}

/// Calls `Decimal`'s `-`, which panics when `|a - b|` exceeds `Decimal::MAX`.
/// Claimed: when both operands and the difference fit in 96 bits at the common
/// scale, the result has the value of the exact difference.
#[verifier::external_body]
pub(crate) fn dec_sub(a: Dec, b: Dec) -> (r: Dec)
    requires
        a.wf(),
        b.wf(),
        sub_in_range(a, b),
    ensures
        r == decimal_sub(a, b),
        r.wf(),
        exact_difference(a, b) is Some ==> dec_eq_spec(
            r,
            Dec::spec_with_scale(exact_difference(a, b)->0, common_scale(a, b)),
        ),
{
    let mut x = Decimal::from_i128_with_scale(a.mantissa, a.scale);
    x.set_sign_negative(a.negative);
    let mut y = Decimal::from_i128_with_scale(b.mantissa, b.scale);
    y.set_sign_negative(b.negative);
    let z = x - y;
    Dec { mantissa: z.mantissa(), scale: z.scale(), negative: z.is_sign_negative() }
}

/// `pow10` is positive.
pub proof fn lemma_pow10_pos(n: nat)
    ensures
        pow10(n) > 0,
    decreases n,
{
    if n > 0 {
        lemma_pow10_pos((n - 1) as nat);
    }
}

/// The powers of ten up to the sixth.
pub proof fn lemma_pow10_small()
    ensures
        pow10(0) == 1,
        pow10(1) == 10,
        pow10(2) == 100,
        pow10(3) == 1000,
        pow10(4) == 10000,
        pow10(5) == 100000,
        pow10(6) == 1000000,
{
    reveal_with_fuel(pow10, 7);
}

/// `10^(a + b) == 10^a * 10^b`.
pub proof fn lemma_pow10_add(a: nat, b: nat)
    ensures
        pow10(a + b) == pow10(a) * pow10(b),
    decreases a,
{
    if a > 0 {
        let a1 = (a - 1) as nat;
        lemma_pow10_add(a1, b);
        assert(pow10(a + b) == 10 * pow10(a1 + b));
        assert(pow10(a) == 10 * pow10(a1));
        assert(10 * (pow10(a1) * pow10(b)) == (10 * pow10(a1)) * pow10(b)) by (nonlinear_arith);
    } else {
        assert(pow10(0) == 1);
    }
}

/// A common positive factor cancels in a quotient.
pub proof fn lemma_cancel_factor(a: int, c: int, d: int)
    requires
        a >= 0,
        c > 0,
        d > 0,
    ensures
        (a * c) / (d * c) == a / d,
{
    vstd::arithmetic::mul::lemma_mul_nonnegative(a, c);
    vstd::arithmetic::div_mod::lemma_div_denominator(a * c, c, d);
    vstd::arithmetic::div_mod::lemma_div_by_multiple(a, c);
    vstd::arithmetic::mul::lemma_mul_is_commutative(c, d);
}

/// Stripping trailing zeros keeps the number: `mag == m * 10^(scale - s)`.
pub proof fn lemma_strip_zeros(mag: nat, scale: nat)
    requires
        mag > 0,
    ensures
        strip_zeros(mag, scale).1 <= scale,
        strip_zeros(mag, scale).0 > 0,
        strip_zeros(mag, scale).0 * pow10((scale - strip_zeros(mag, scale).1) as nat) == mag,
    decreases scale,
{
    if scale > 0 && mag % 10 == 0 {
        let q = mag / 10;
        assert(mag == 10 * q);
        lemma_strip_zeros(q, (scale - 1) as nat);
        let (m2, s2) = strip_zeros(q, (scale - 1) as nat);
        assert(strip_zeros(mag, scale) == (m2, s2));
        let e = (scale - 1 - s2) as nat;
        assert((scale - s2) as nat == e + 1);
        assert(pow10(e + 1) == 10 * pow10(e));
        assert(m2 * pow10(e + 1) == 10 * (m2 * pow10(e))) by (nonlinear_arith)
            requires
                pow10(e + 1) == 10 * pow10(e),
        ;
        assert(m2 * pow10(e) == q);
        assert(m2 * pow10((scale - s2) as nat) == mag);
    } else {
        assert(strip_zeros(mag, scale) == (mag, scale));
        assert(pow10(0) == 1);
        assert(((scale - scale) as nat) == 0);
        assert(mag * pow10(0) == mag);
    }
}

/// A mantissa that stays within 96 bits after `diff` multiplications by ten is
/// multiplied `diff` times.
pub proof fn lemma_upscale_full(mag: nat, diff: nat)
    requires
        mag * pow10(diff) <= MAX_MANTISSA,
    ensures
        upscale_steps(mag, diff) == diff,
    decreases diff,
{
    if diff > 0 {
        let d1 = (diff - 1) as nat;
        lemma_pow10_pos(d1);
        assert(pow10(diff) == 10 * pow10(d1));
        assert(mag * pow10(diff) == (mag * 10) * pow10(d1)) by (nonlinear_arith)
            requires
                pow10(diff) == 10 * pow10(d1),
        ;
        assert(mag * 10 <= mag * pow10(diff)) by (nonlinear_arith)
            requires
                pow10(diff) == 10 * pow10(d1),
                pow10(d1) >= 1,
        ;
        lemma_upscale_full(mag * 10, d1);
    }
}

/// `floor(mag / 10^scale * 10^places)`: a non-negative decimal at `places`
/// decimal places, truncated, as an integer.
pub open spec fn scaled_floor(mag: nat, scale: nat, places: nat) -> nat {
    mag * pow10(places) / pow10(scale)
}

/// Upscaling stops within `diff` steps and keeps the mantissa within 96 bits.
pub proof fn lemma_upscale_bounds(mag: nat, diff: nat)
    requires
        mag <= MAX_MANTISSA,
    ensures
        upscale_steps(mag, diff) <= diff,
        mag * pow10(upscale_steps(mag, diff)) <= MAX_MANTISSA,
    decreases diff,
{
    if diff == 0 || mag * 10 > MAX_MANTISSA {
        assert(pow10(0) == 1);
        assert(mag * pow10(0) == mag);
    } else {
        let d1 = (diff - 1) as nat;
        lemma_upscale_bounds(mag * 10, d1);
        let k = upscale_steps(mag * 10, d1);
        assert(upscale_steps(mag, diff) == k + 1);
        assert(pow10(k + 1) == 10 * pow10(k));
        assert(mag * pow10(k + 1) == (mag * 10) * pow10(k)) by (nonlinear_arith)
            requires
                pow10(k + 1) == 10 * pow10(k),
        ;
    }
}

/// Two representations of one value truncate alike at any number of places.
pub proof fn lemma_same_value_floor(am: nat, a_scale: nat, bm: nat, b_scale: nat, places: nat)
    requires
        a_scale <= b_scale,
        am * pow10(b_scale) == bm * pow10(a_scale),
    ensures
        scaled_floor(am, a_scale, places) == scaled_floor(bm, b_scale, places),
{
    let k = (b_scale - a_scale) as nat;
    lemma_pow10_add(k, a_scale);
    lemma_pow10_pos(k);
    lemma_pow10_pos(a_scale);
    lemma_pow10_pos(places);
    let pa = pow10(a_scale);
    let pk = pow10(k);
    assert(pow10(b_scale) == pk * pa);
    assert(bm == am * pk) by (nonlinear_arith)
        requires
            am * (pk * pa) == bm * pa,
            pa > 0,
    ;
    assert(bm * pow10(places) == (am * pow10(places)) * pk) by (nonlinear_arith)
        requires
            bm == am * pk,
    ;
    assert(pow10(b_scale) == pa * pk) by (nonlinear_arith)
        requires
            pow10(b_scale) == pk * pa,
    ;
    lemma_cancel_factor((am * pow10(places)) as int, pk as int, pa as int);
}

/// Truncating a non-negative decimal to `s` places keeps its value truncated
/// at `s` places, and the sign flag.
pub proof fn lemma_trunc_floor(d: Dec, s: nat)
    requires
        d.wf(),
        !d.negative,
        s <= MAX_SCALE,
    ensures
        !trunc_with_scale_spec(d, s).negative,
        trunc_with_scale_spec(d, s).mantissa >= 0,
        trunc_with_scale_spec(d, s).scale <= s,
        scaled_floor(trunc_with_scale_spec(d, s).mag(), trunc_with_scale_spec(d, s).scale as nat, s)
            == scaled_floor(d.mag(), d.scale as nat, s),
        d.scale <= s ==> trunc_with_scale_spec(d, s).mag() * pow10(d.scale as nat) == d.mag() * pow10(
            trunc_with_scale_spec(d, s).scale as nat,
        ) && d.scale <= trunc_with_scale_spec(d, s).scale,
        d.scale >= s ==> trunc_with_scale_spec(d, s).scale == s,
{
    let r = trunc_with_scale_spec(d, s);
    let m = d.mag();
    let ds = d.scale as nat;
    lemma_pow10_pos(ds);
    lemma_pow10_pos(s);
    if ds == s {
    } else if d.mantissa == 0 {
        assert(0 * pow10(s) == 0);
        vstd::arithmetic::div_mod::lemma_div_by_multiple(0, pow10(s) as int);
        vstd::arithmetic::div_mod::lemma_div_by_multiple(0, pow10(ds) as int);
        assert(0 * pow10(ds) == 0);
    } else if ds > s {
        let e = (ds - s) as nat;
        lemma_pow10_add(e, s);
        lemma_pow10_pos(e);
        let q = m / pow10(e);
        assert(q <= m) by {
            vstd::arithmetic::div_mod::lemma_div_is_ordered_by_denominator(m as int, 1, pow10(e) as int);
        }
        assert(r.mantissa == q);
        assert(pow10(ds) == pow10(e) * pow10(s));
        lemma_cancel_factor(q as int, pow10(s) as int, 1);
        assert((q * pow10(s)) / (1 * pow10(s)) == q / 1);
        lemma_cancel_factor(m as int, pow10(s) as int, pow10(e) as int);
    } else {
        let k = upscale_steps(m, (s - ds) as nat);
        lemma_upscale_bounds(m, (s - ds) as nat);
        lemma_pow10_pos(k);
        assert(m * pow10(k) >= 0) by (nonlinear_arith)
            requires
                pow10(k) > 0,
        ;
        assert(r.mantissa == m * pow10(k));
        assert(r.scale == ds + k);
        lemma_pow10_add(k, ds);
        assert((m * pow10(k)) * pow10(ds) == m * pow10(ds + k)) by (nonlinear_arith)
            requires
                pow10(ds + k) == pow10(k) * pow10(ds),
        ;
        lemma_same_value_floor(m, ds, (m * pow10(k)) as nat, ds + k, s);
    }
}

/// When a non-negative decimal truncated at `s` places fits in 96 bits,
/// truncating to `s` places gives exactly that mantissa at scale `s`.
pub proof fn lemma_trunc_exact(d: Dec, s: nat)
    requires
        d.wf(),
        !d.negative,
        s <= MAX_SCALE,
        scaled_floor(d.mag(), d.scale as nat, s) <= MAX_MANTISSA,
    ensures
        trunc_with_scale_spec(d, s).scale == s,
        trunc_with_scale_spec(d, s).mag() == scaled_floor(d.mag(), d.scale as nat, s),
        trunc_with_scale_spec(d, s).mantissa == scaled_floor(d.mag(), d.scale as nat, s),
{
    let r = trunc_with_scale_spec(d, s);
    let m = d.mag();
    let ds = d.scale as nat;
    lemma_trunc_floor(d, s);
    lemma_pow10_pos(s);
    lemma_pow10_pos(ds);
    if ds >= s {
        assert(r.scale == s);
        lemma_cancel_factor(r.mag() as int, pow10(s) as int, 1);
        assert((r.mag() * pow10(s)) / (1 * pow10(s)) == r.mag() / 1);
    } else if d.mantissa == 0 {
        assert(0 * pow10(s) == 0);
        vstd::arithmetic::div_mod::lemma_div_by_multiple(0, pow10(ds) as int);
        assert(0 * pow10(ds) == 0);
    } else {
        let e = (s - ds) as nat;
        lemma_pow10_add(e, ds);
        lemma_pow10_pos(e);
        assert(m * pow10(s) == (m * pow10(e)) * pow10(ds)) by (nonlinear_arith)
            requires
                pow10(s) == pow10(e) * pow10(ds),
        ;
        lemma_cancel_factor((m * pow10(e)) as int, pow10(ds) as int, 1);
        assert(((m * pow10(e)) * pow10(ds)) / (1 * pow10(ds)) == (m * pow10(e)) / 1);
        assert(scaled_floor(m, ds, s) == m * pow10(e));
        lemma_upscale_full(m, e);
        assert(r.mantissa == m * pow10(e));
    }
}

/// A mantissa `x * 10^k` at scale `k` strips to `x` at scale 0.
pub proof fn lemma_strip_power(x: nat, k: nat)
    ensures
        strip_zeros(x * pow10(k), k) == (x, 0nat),
    decreases k,
{
    if k > 0 {
        let k1 = (k - 1) as nat;
        let y = x * pow10(k1);
        assert(pow10(k) == 10 * pow10(k1));
        assert(x * pow10(k) == y * 10) by (nonlinear_arith)
            requires
                pow10(k) == 10 * pow10(k1),
                y == x * pow10(k1),
        ;
        assert((y * 10) % 10 == 0);
        assert((y * 10) / 10 == y);
        lemma_strip_power(x, k1);
    } else {
        assert(pow10(0) == 1);
        assert(x * pow10(k) == x);
    }
}

} // verus!
