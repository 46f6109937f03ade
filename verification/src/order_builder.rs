//! Building limit and market orders: validation of the builder's fields
//! against the market's tick size, and the fixed-point computation of the
//! maker and taker amounts.
use crate::decimal::{
    aligned, common_scale, dec_eq_spec, dec_lt, dec_lt_spec, dec_mul, dec_normalize, dec_sub,
    dec_trunc_with_scale, decimal_mul, decimal_sub, lemma_cancel_factor, lemma_pow10_add,
    lemma_pow10_pos, lemma_pow10_small, lemma_same_value_floor, lemma_strip_zeros,
    lemma_trunc_floor, lemma_upscale_full, mul_in_range, normalize_spec, pow10, scaled_floor,
    strip_zeros, trunc_with_scale_spec, Dec, MAX_MANTISSA,
};
use crate::types::{
    Address, Amount, AnySignableOrder, Order, OrderError, OrderType, OrderV2, OrderVersion,
    SignableOrder, SignableOrderV2, SignatureType, Side, TickSize, UtcTime, B256, U256,
};
use core::marker::PhantomData;
use vstd::prelude::*;

verus! {

/// Decimal places of the collateral token.
pub const USDC_DECIMALS: u32 = 6u32;

/// Maximum number of decimal places of a size.
pub const LOT_SIZE_SCALE: u32 = 2u32;

/// `2^53`: salts stay below it because the exchange reads them as IEEE 754 doubles.
pub open spec fn salt_bound() -> nat {
    0x20_0000_0000_0000
}

/// Mask the salt to be <= 2^53 - 1, as the backend parses as an IEEE 754.
pub fn to_ieee_754_int(salt: u64) -> (r: u64)
    ensures
        r == salt % (salt_bound() as u64),
        r < salt_bound(),
{
    let bit: u64 = 1u64 << 53u64;
    assert(bit == 0x20_0000_0000_0000u64) by (bit_vector)
        requires
            bit == 1u64 << 53u64,
    ;
    let mask: u64 = bit - 1;
    let r = salt & mask;
    assert(salt & 0x1F_FFFF_FFFF_FFFFu64 == salt % 0x20_0000_0000_0000u64) by (bit_vector);
    r
}

/// Whether `to_fixed_u128` can represent `d`: its mantissa, normalized and
/// truncated to six places, is not negative.
pub open spec fn fixed_ok(d: Dec) -> bool {
    d.negative ==> trunc_with_scale_spec(normalize_spec(d), USDC_DECIMALS as nat).mantissa >= 0
}

/// The mantissa of `d` once trailing zeros are removed and it is truncated to
/// six decimal places.
pub open spec fn to_fixed_spec(d: Dec) -> u128 {
    trunc_with_scale_spec(normalize_spec(d), USDC_DECIMALS as nat).mantissa as u128
}

/// Removes trailing zeros, truncates to [`USDC_DECIMALS`] decimal places, and quantizes as an
/// integer.
pub fn to_fixed_u128(d: Dec) -> (r: u128)
    requires
        d.wf(),
        fixed_ok(d),
    ensures
        r == to_fixed_spec(d),
{
    let n = dec_normalize(d);
    let t = dec_trunc_with_scale(n, USDC_DECIMALS);
    let m = t.mantissa();
    m as u128
}

/// The `timestamp` of a second-version order from the milliseconds that the
/// clock gave.
pub fn compute_timestamp(millis: i64) -> (r: U256)
    requires
        millis >= 0,
    ensures
        r == U256::spec_from_u64(millis as u64),
        r.value() == millis,
{
    U256::from_u64(millis as u64)
}

/// `1 - tick`, which the price must not exceed.
pub open spec fn one_minus_tick(tick: TickSize) -> Dec {
    decimal_sub(Dec::spec_one(), tick.spec_as_decimal())
}

/// The price lies between the tick size and one minus the tick size.
pub open spec fn price_in_range(price: Dec, tick: TickSize) -> bool {
    !dec_lt_spec(price, tick.spec_as_decimal()) && !dec_lt_spec(one_minus_tick(tick), price)
}

/// A price between `tick` and `one_minus` (which equals `1 - tick`) is positive and below one.
proof fn lemma_price_between(price: Dec, tick: TickSize, om: Dec)
    requires
        price.wf(),
        !dec_lt_spec(price, tick.spec_as_decimal()),
        !dec_lt_spec(om, price),
        dec_eq_spec(om, Dec::spec_with_scale(pow10(tick.places()) - 1, tick.places())),
    ensures
        0 < price.mantissa < pow10(price.scale as nat),
{
    let k = tick.places();
    let pk = pow10(k);
    let ps = pow10(price.scale as nat);
    let os = pow10(om.scale as nat);
    lemma_pow10_small();
    lemma_pow10_pos(price.scale as nat);
    lemma_pow10_pos(om.scale as nat);
    assert(1 <= k <= 4);
    assert(pk >= 10);
    let pm = price.mantissa as int;
    let omm = om.mantissa as int;
    assert(pm * pk >= ps);
    assert(pm > 0) by (nonlinear_arith)
        requires
            pm * pk >= ps,
            ps > 0,
            pk > 0,
    ;
    assert(pm * os <= omm * ps);
    assert(omm * pk == (pk - 1) * os);
    assert(pm < ps) by (nonlinear_arith)
        requires
            pm * os <= omm * ps,
            omm * pk == (pk - 1) * os,
            os > 0,
            pk > 0,
            ps > 0,
    {
        assert(pm * os * pk <= omm * ps * pk);
        assert(omm * ps * pk == (pk - 1) * os * ps);
        assert(pm * pk * os <= (pk - 1) * ps * os);
        assert(pm * pk <= (pk - 1) * ps);
    }
}

/// Multiplying a decimal by a non-negative price below one stays within range.
pub(crate) proof fn lemma_mul_by_price_in_range(x: Dec, price: Dec)
    requires
        x.wf(),
        price.wf(),
        0 <= price.mantissa < pow10(price.scale as nat),
    ensures
        mul_in_range(x, price),
{
    let xs = pow10(x.scale as nat);
    let ps = pow10(price.scale as nat);
    lemma_pow10_pos(x.scale as nat);
    lemma_pow10_pos(price.scale as nat);
    let xm = x.mag() as int;
    let pm = price.mag() as int;
    let mx = MAX_MANTISSA as int;
    assert(xm <= mx);
    assert(pm <= ps);
    assert(xm * pm <= mx * xs * ps) by (nonlinear_arith)
        requires
            0 <= xm <= mx,
            0 <= pm <= ps,
            xs >= 1,
            ps >= 1,
    {
        assert(xm * pm <= mx * ps);
        assert(mx * ps <= mx * ps * xs);
    }
}

/// Checks that `price` lies between the tick size and one minus the tick size.
pub(crate) fn check_price_range(price: Dec, tick: TickSize) -> (r: bool)
    requires
        price.wf(),
    ensures
        r == price_in_range(price, tick),
        r ==> 0 < price.mantissa < pow10(price.scale as nat),
{
    let t = tick.as_decimal();
    if dec_lt(price, t) {
        return false;
    }
    let one = Dec::one();
    proof {
        lemma_pow10_small();
        assert(common_scale(one, t) == tick.places());
        assert(aligned(one, tick.places()) == pow10(tick.places()));
        assert(aligned(t, tick.places()) == 1);
    }
    let om = dec_sub(one, t);
    if dec_lt(om, price) {
        return false;
    }
    proof {
        lemma_price_between(price, tick, om);
    }
    true
}

/// `size * price` truncated to the places of the tick plus those of the lot size.
pub open spec fn notional_spec(size: Dec, price: Dec, places: nat) -> Dec {
    trunc_with_scale_spec(decimal_mul(size, price), places + LOT_SIZE_SCALE as nat)
}

/// Computes `size * price` truncated to `places + LOT_SIZE_SCALE` decimal places.
pub(crate) fn notional(size: Dec, price: Dec, places: u32) -> (r: Dec)
    requires
        size.wf(),
        price.wf(),
        mul_in_range(size, price),
        places + LOT_SIZE_SCALE <= 28,
    ensures
        r == notional_spec(size, price, places as nat),
        r.wf(),
        r.negative ==> size.negative != price.negative,
        notional_is_exact(size, price, places as nat) ==> to_fixed_spec(r) == notional_millionths(
            size,
            price,
        ),
{
    let p = dec_mul(size, price);
    let r = dec_trunc_with_scale(p, places + LOT_SIZE_SCALE);
    proof {
        if notional_is_exact(size, price, places as nat) {
            let s = (places + LOT_SIZE_SCALE) as nat;
            let n = notional_millionths(size, price);
            if size.mantissa == 0 || price.mantissa == 0 {
                assert(p == Dec::spec_zero());
                assert(size.mag() * price.mag() == 0) by (nonlinear_arith)
                    requires
                        size.mag() == 0 || price.mag() == 0,
                ;
                let ps = (size.scale + price.scale) as nat;
                lemma_pow10_pos(ps);
                vstd::arithmetic::div_mod::lemma_div_by_multiple(0, pow10(ps) as int);
                assert(0 * pow10(ps) == 0);
                assert(0 * pow10(6) == 0);
                assert(n == 0);
                lemma_trunc_floor(p, s);
                assert(r.mantissa == 0);
                assert(scaled_floor(r.mag(), r.scale as nat, 6) == 0) by {
                    lemma_pow10_pos(r.scale as nat);
                    vstd::arithmetic::div_mod::lemma_div_by_multiple(0, pow10(r.scale as nat) as int);
                    assert(0 * pow10(6) == 0);
                }
                law_to_fixed_quantizes(r);
            } else {
                assert(size.mantissa * price.mantissa >= 0) by (nonlinear_arith)
                    requires
                        size.mantissa >= 0,
                        price.mantissa >= 0,
                ;
                assert(p.mag() == size.mag() * price.mag());
                lemma_trunc_floor(p, s);
                lemma_same_value_floor(p.mag(), p.scale as nat, r.mag(), r.scale as nat, 6);
                law_to_fixed_quantizes(r);
            }
        }
    }
    r
}

/// `size * price` in millionths, truncated: what the amount computed from them
/// is when nothing is lost on the way.
pub open spec fn notional_millionths(size: Dec, price: Dec) -> nat {
    scaled_floor(size.mag() * price.mag(), (size.scale + price.scale) as nat, USDC_DECIMALS as nat)
}

/// `size` in millionths, truncated.
pub open spec fn size_millionths(size: Dec) -> nat {
    scaled_floor(size.mag(), size.scale as nat, USDC_DECIMALS as nat)
}

/// Nothing is lost computing `size * price` at `places + 2` places: both are
/// non-negative, the exact product fits in 96 bits and has no more places, and
/// it fits in 96 bits in millionths.
pub open spec fn notional_is_exact(size: Dec, price: Dec, places: nat) -> bool {
    &&& !size.negative
    &&& !price.negative
    &&& size.mag() * price.mag() <= MAX_MANTISSA
    &&& size.scale + price.scale <= places + LOT_SIZE_SCALE
    &&& notional_millionths(size, price) <= MAX_MANTISSA
}

/// The exact product of `size` and `price`, it in millionths, and `size` in
/// millionths all fit in 96 bits.
pub open spec fn amounts_fit(size: Dec, price: Dec) -> bool {
    &&& size.mag() * price.mag() <= MAX_MANTISSA
    &&& notional_millionths(size, price) <= MAX_MANTISSA
    &&& size_millionths(size) <= MAX_MANTISSA
}

/// The maker and taker amounts of an order on `side` for `size` shares at
/// `price` are the exact size and notional in millionths: a buy gives the
/// notional and takes the size, a sell the reverse.
pub open spec fn amounts_are_exact(side: Side, size: Dec, price: Dec, maker: u128, taker: u128) -> bool {
    match side {
        Side::Buy => taker == size_millionths(size) && maker == notional_millionths(size, price),
        Side::Sell => maker == size_millionths(size) && taker == notional_millionths(size, price),
        Side::Unknown => true,
    }
}

/// The (taker, maker) decimal amounts of a limit order: a buy takes `size`
/// shares for `size * price` collateral, a sell the reverse; `None` for an
/// unknown side.
pub open spec fn limit_amounts(side: Side, size: Dec, price: Dec, places: nat) -> Option<(Dec, Dec)> {
    match side {
        Side::Buy => Some((size, notional_spec(size, price, places))),
        Side::Sell => Some((notional_spec(size, price, places), size)),
        Side::Unknown => None,
    }
}

/// Placeholder type for compile-time checks on limit order builders
#[non_exhaustive]
#[derive(Debug)]
pub struct Limit;

/// Placeholder type for compile-time checks on market order builders
#[non_exhaustive]
#[derive(Debug)]
pub struct Market;

/// Used to create an order iteratively and ensure validity with respect to its order kind.
#[derive(Debug)]
pub struct OrderBuilder<OrderKind> {
    pub signer: Address,
    pub signature_type: SignatureType,
    pub token_id: Option<U256>,
    pub price: Option<Dec>,
    pub size: Option<Dec>,
    pub amount: Option<Amount>,
    pub side: Option<Side>,
    pub nonce: Option<u64>,
    pub expiration: Option<UtcTime>,
    pub taker: Option<Address>,
    pub order_type: Option<OrderType>,
    pub post_only: Option<bool>,
    pub funder: Option<Address>,
    pub order_version: OrderVersion,
    pub metadata: B256,
    pub builder_field: B256,
    pub _kind: PhantomData<OrderKind>,
}

impl<OrderKind> OrderBuilder<OrderKind> {
    /// Every decimal the builder holds is well formed.
    pub open spec fn wf(&self) -> bool {
        &&& (self.price matches Some(p) ==> p.wf())
        &&& (self.size matches Some(s) ==> s.wf())
        &&& (self.amount matches Some(a) ==> a.wf())
    }

    /// A builder for orders signed by `signer`, made on behalf of `funder` when
    /// one is given; every optional field is unset, the version is V1, and the
    /// metadata and builder words are zero.
    pub fn new(signer: Address, signature_type: SignatureType, funder: Option<Address>) -> (r: Self)
        ensures
            r.wf(),
            r == (OrderBuilder::<OrderKind> {
                signer,
                signature_type,
                token_id: None,
                price: None,
                size: None,
                amount: None,
                side: None,
                nonce: None,
                expiration: None,
                taker: None,
                order_type: None,
                post_only: None,
                funder,
                order_version: OrderVersion::V1,
                metadata: B256::spec_zero(),
                builder_field: B256::spec_zero(),
                _kind: PhantomData,
            }),
    {
        OrderBuilder {
            signer,
            signature_type,
            token_id: None,
            price: None,
            size: None,
            amount: None,
            side: None,
            nonce: None,
            expiration: None,
            taker: None,
            order_type: None,
            post_only: None,
            funder,
            order_version: OrderVersion::V1,
            metadata: B256::zero(),
            builder_field: B256::zero(),
            _kind: PhantomData,
        }
    }

    /// Sets the `token_id` for this builder. This is a required field.
    pub fn token_id(self, token_id: U256) -> (r: Self)
        ensures
            r == (Self { token_id: Some(token_id), ..self }),
    {
        Self { token_id: Some(token_id), ..self }
    }

    /// Sets the [`Side`] for this builder. This is a required field.
    pub fn side(self, side: Side) -> (r: Self)
        ensures
            r == (Self { side: Some(side), ..self }),
    {
        Self { side: Some(side), ..self }
    }

    /// Sets the nonce for this builder.
    pub fn nonce(self, nonce: u64) -> (r: Self)
        ensures
            r == (Self { nonce: Some(nonce), ..self }),
    {
        Self { nonce: Some(nonce), ..self }
    }

    /// Sets the expiration of this builder.
    pub fn expiration(self, expiration: UtcTime) -> (r: Self)
        ensures
            r == (Self { expiration: Some(expiration), ..self }),
    {
        Self { expiration: Some(expiration), ..self }
    }

    /// Sets the taker of this builder.
    pub fn taker(self, taker: Address) -> (r: Self)
        ensures
            r == (Self { taker: Some(taker), ..self }),
    {
        Self { taker: Some(taker), ..self }
    }

    /// Sets the order type of this builder.
    pub fn order_type(self, order_type: OrderType) -> (r: Self)
        ensures
            r == (Self { order_type: Some(order_type), ..self }),
    {
        Self { order_type: Some(order_type), ..self }
    }

    /// Sets the `postOnly` flag for this builder.
    pub fn post_only(self, post_only: bool) -> (r: Self)
        ensures
            r == (Self { post_only: Some(post_only), ..self }),
    {
        Self { post_only: Some(post_only), ..self }
    }

    /// Opt into V2 order signing for this builder. Defaults to V1.
    pub fn version(self, v: OrderVersion) -> (r: Self)
        ensures
            r == (Self { order_version: v, ..self }),
    {
        Self { order_version: v, ..self }
    }

    /// V2-only: set the `metadata` bytes32 field. Defaults to all zero.
    /// Silently ignored for V1 orders (V1 has no metadata field).
    pub fn metadata(self, m: B256) -> (r: Self)
        ensures
            r == (Self { metadata: m, ..self }),
    {
        Self { metadata: m, ..self }
    }

    /// V2-only: set the `builder` bytes32 field. Defaults to all zero.
    /// Silently ignored for V1 orders.
    pub fn builder(self, b: B256) -> (r: Self)
        ensures
            r == (Self { builder_field: b, ..self }),
    {
        Self { builder_field: b, ..self }
    }
}

/// The first failed check of a limit order's price: sign, then number of
/// decimal places against the tick size, then range.
pub open spec fn limit_price_error(price: Dec, tick: TickSize) -> Option<OrderError> {
    if price.negative {
        Some(OrderError::NegativePrice { price })
    } else if price.scale > tick.places() {
        Some(OrderError::PriceTooPrecise { price, tick: tick.spec_as_decimal() })
    } else if !price_in_range(price, tick) {
        Some(OrderError::PriceOutOfRange { price, tick: tick.spec_as_decimal() })
    } else {
        None
    }
}

/// The first failed check of a limit order's size: at most two decimal places,
/// then positive.
pub open spec fn limit_size_error(size: Dec) -> Option<OrderError> {
    if size.scale > LOT_SIZE_SCALE {
        Some(OrderError::SizeTooPrecise { size })
    } else if size.mantissa == 0 || size.negative {
        Some(OrderError::NonPositiveSize { size })
    } else {
        None
    }
}

/// Checks a limit order's price against the tick size.
fn check_limit_price(price: Dec, tick: TickSize) -> (r: Option<OrderError>)
    requires
        price.wf(),
    ensures
        r == limit_price_error(price, tick),
        r is None ==> 0 < price.mantissa < pow10(price.scale as nat) && price.scale <= tick.places(),
{
    if price.is_sign_negative() {
        return Some(OrderError::NegativePrice { price });
    }
    let t = tick.as_decimal();
    if price.scale() > t.scale() {
        return Some(OrderError::PriceTooPrecise { price, tick: t });
    }
    if !check_price_range(price, tick) {
        return Some(OrderError::PriceOutOfRange { price, tick: t });
    }
    None
}

/// Checks a limit order's size.
fn check_limit_size(size: Dec) -> (r: Option<OrderError>)
    ensures
        r == limit_size_error(size),
{
    if size.scale() > LOT_SIZE_SCALE {
        return Some(OrderError::SizeTooPrecise { size });
    }
    if size.is_zero() || size.is_sign_negative() {
        return Some(OrderError::NonPositiveSize { size });
    }
    None
}

/// What `OrderBuilder::<Limit>::build` gives, for the fee rate and tick size of
/// the token and the salt that the generator drew.
pub open spec fn limit_order_v1(
    b: OrderBuilder<Limit>,
    fee_rate_bps: u64,
    tick: TickSize,
    raw_salt: u64,
) -> Result<SignableOrder, OrderError> {
    match b.token_id {
        None => Err(OrderError::MissingTokenId),
        Some(token_id) => match b.side {
            None => Err(OrderError::MissingSide),
            Some(side) => match b.price {
                None => Err(OrderError::MissingPrice),
                Some(price) => match limit_price_error(price, tick) {
                    Some(e) => Err(e),
                    None => match b.size {
                        None => Err(OrderError::MissingSize),
                        Some(size) => match limit_size_error(size) {
                            Some(e) => Err(e),
                            None => {
                                let expiration = b.expiration.unwrap_or(UtcTime::spec_epoch());
                                let order_type = b.order_type.unwrap_or(OrderType::GTC);
                                let post_only = b.post_only.unwrap_or(false);
                                if order_type != OrderType::GTD && expiration.after_epoch() {
                                    Err(OrderError::ExpirationRequiresGtd)
                                } else if post_only && !order_type.is_resting() {
                                    Err(OrderError::PostOnlyRequiresResting)
                                } else {
                                    match limit_amounts(side, size, price, tick.places()) {
                                        None => Err(OrderError::InvalidSide { side }),
                                        Some((taker_amount, maker_amount)) => if expiration.secs < 0 {
                                            Err(OrderError::ExpirationNotRepresentable { expiration })
                                        } else {
                                            Ok(
                                                SignableOrder {
                                                    order: Order {
                                                        salt: (raw_salt % (salt_bound() as u64)) as u64,
                                                        maker: b.funder.unwrap_or(b.signer),
                                                        taker: b.taker.unwrap_or(Address::spec_zero()),
                                                        token_id,
                                                        maker_amount: to_fixed_spec(maker_amount),
                                                        taker_amount: to_fixed_spec(taker_amount),
                                                        side: side.spec_code(),
                                                        fee_rate_bps,
                                                        nonce: b.nonce.unwrap_or(0),
                                                        signer: b.signer,
                                                        expiration: expiration.secs as u64,
                                                        signature_type: b.signature_type.spec_code(),
                                                    },
                                                    order_type,
                                                    post_only: Some(post_only),
                                                },
                                            )
                                        },
                                    }
                                }
                            },
                        },
                    },
                },
            },
        },
    }
}

impl OrderBuilder<Limit> {
    /// Sets the price for this limit builder. This is a required field.
    pub fn price(self, price: Dec) -> (r: Self)
        ensures
            r == (Self { price: Some(price), ..self }),
    {
        Self { price: Some(price), ..self }
    }

    /// Sets the size for this limit builder. This is a required field.
    pub fn size(self, size: Dec) -> (r: Self)
        ensures
            r == (Self { size: Some(size), ..self }),
    {
        Self { size: Some(size), ..self }
    }

    /// Validates and transforms this limit builder into a [`SignableOrder`], given
    /// the token's fee rate and tick size and a salt drawn by the generator.
    pub fn build(self, fee_rate_bps: u64, tick: TickSize, raw_salt: u64) -> (r: Result<
        SignableOrder,
        OrderError,
    >)
        requires
            self.wf(),
        ensures
            r == limit_order_v1(self, fee_rate_bps, tick, raw_salt),
            r matches Ok(o) ==> (amounts_fit(self.size->0, self.price->0) ==> amounts_are_exact(
                self.side->0,
                self.size->0,
                self.price->0,
                o.order.maker_amount,
                o.order.taker_amount,
            )),
    {
        let token_id = match self.token_id {
            Some(t) => t,
            None => return Err(OrderError::MissingTokenId),
        };
        let side = match self.side {
            Some(s) => s,
            None => return Err(OrderError::MissingSide),
        };
        let price = match self.price {
            Some(p) => p,
            None => return Err(OrderError::MissingPrice),
        };
        if let Some(e) = check_limit_price(price, tick) {
            return Err(e);
        }
        let size = match self.size {
            Some(s) => s,
            None => return Err(OrderError::MissingSize),
        };
        if let Some(e) = check_limit_size(size) {
            return Err(e);
        }
        let expiration = self.expiration.unwrap_or(UtcTime::epoch());
        let order_type = self.order_type.unwrap_or(OrderType::GTC);
        let post_only = self.post_only.unwrap_or(false);
        if order_type != OrderType::GTD && expiration.is_after_epoch() {
            return Err(OrderError::ExpirationRequiresGtd);
        }
        if post_only && !(order_type == OrderType::GTC || order_type == OrderType::GTD) {
            return Err(OrderError::PostOnlyRequiresResting);
        }
        let places = tick.as_decimal().scale();
        proof {
            lemma_mul_by_price_in_range(size, price);
        }
        let (taker_amount, maker_amount) = match side {
            Side::Buy => (size, notional(size, price, places)),
            Side::Sell => (notional(size, price, places), size),
            Side::Unknown => return Err(OrderError::InvalidSide { side }),
        };
        let salt = to_ieee_754_int(raw_salt);
        let maker_fixed = to_fixed_u128(maker_amount);
        let taker_fixed = to_fixed_u128(taker_amount);
        proof {
            if amounts_fit(size, price) {
                law_to_fixed_quantizes(size);
            }
        }
        if expiration.secs < 0 {
            return Err(OrderError::ExpirationNotRepresentable { expiration });
        }
        let order = Order {
            salt,
            maker: self.funder.unwrap_or(self.signer),
            taker: self.taker.unwrap_or(Address::zero()),
            token_id,
            maker_amount: maker_fixed,
            taker_amount: taker_fixed,
            side: side.code(),
            fee_rate_bps,
            nonce: self.nonce.unwrap_or(0),
            signer: self.signer,
            expiration: expiration.secs as u64,
            signature_type: self.signature_type.code(),
        };
        Ok(SignableOrder { order, order_type, post_only: Some(post_only) })
    }
}

/// Whether the second-version assembly computes `size * price` (it does unless
/// the order is a buy whose maker amount is given).
pub open spec fn uses_notional(side: Side, maker_amount_override: Option<u128>) -> bool {
    (side == Side::Buy && maker_amount_override is None) || side == Side::Sell
}

/// What `assemble_signable_order_v2` gives.
pub open spec fn assembled_order_v2(
    token_id: U256,
    side: Side,
    price: Dec,
    size: Dec,
    minimum_tick_size: Dec,
    order_type: OrderType,
    post_only: bool,
    raw_salt: u64,
    timestamp_ms: i64,
    funder: Option<Address>,
    signer: Address,
    signature_type: SignatureType,
    metadata: B256,
    builder_field: B256,
    expiration: U256,
    maker_amount_override: Option<u128>,
) -> Result<SignableOrderV2, OrderError> {
    let places = minimum_tick_size.scale as nat;
    if signature_type == SignatureType::Poly1271 {
        Err(OrderError::SignatureTypeNotImplemented)
    } else {
        let amounts: Option<(u128, u128)> = match side {
            Side::Buy => Some(
                (
                    to_fixed_spec(size),
                    maker_amount_override.unwrap_or(
                        to_fixed_spec(notional_spec(size, price, places)),
                    ),
                ),
            ),
            Side::Sell => Some((to_fixed_spec(notional_spec(size, price, places)), to_fixed_spec(size))),
            Side::Unknown => None,
        };
        match amounts {
            None => Err(OrderError::InvalidSide { side }),
            Some((taker_amount, maker_amount)) => Ok(
                SignableOrderV2 {
                    order: OrderV2 {
                        salt: (raw_salt % (salt_bound() as u64)) as u64,
                        maker: funder.unwrap_or(signer),
                        signer,
                        token_id,
                        maker_amount,
                        taker_amount,
                        side: side.spec_code(),
                        signature_type: signature_type.spec_code(),
                        timestamp: U256::spec_from_u64(timestamp_ms as u64),
                        metadata,
                        builder: builder_field,
                    },
                    order_type,
                    post_only: Some(post_only),
                    expiration,
                },
            ),
        }
    }
}

/// Pure synchronous core of V2 order assembly.
///
/// All inputs are validated by the caller.  `raw_salt` is what the salt
/// generator drew and `timestamp_ms` what the millisecond clock read.
///
/// `maker_amount_override`: when `Some(v)`, that value is used as the
/// `makerAmount` field of the V2 order rather than the default `size * price`
/// computation. Pass `Some` only for BUY+USDC market orders, where the
/// maker_amount must equal the user's exact USDC input (rounded down to lot
/// precision) rather than being re-derived from `size * price`.
pub fn assemble_signable_order_v2(
    token_id: U256,
    side: Side,
    price: Dec,
    size: Dec,
    minimum_tick_size: Dec,
    order_type: OrderType,
    post_only: bool,
    raw_salt: u64,
    timestamp_ms: i64,
    funder: Option<Address>,
    signer: Address,
    signature_type: SignatureType,
    metadata: B256,
    builder_field: B256,
    expiration: U256,
    maker_amount_override: Option<u128>,
) -> (r: Result<SignableOrderV2, OrderError>)
    requires
        price.wf(),
        size.wf(),
        minimum_tick_size.wf(),
        minimum_tick_size.scale + LOT_SIZE_SCALE <= 28,
        signature_type != SignatureType::Poly1271 && side != Side::Unknown ==> timestamp_ms >= 0
            && fixed_ok(size),
        signature_type != SignatureType::Poly1271 && uses_notional(side, maker_amount_override)
            ==> mul_in_range(size, price) && (size.negative != price.negative ==> fixed_ok(
            notional_spec(size, price, minimum_tick_size.scale as nat),
        )),
    ensures
        r == assembled_order_v2(
            token_id,
            side,
            price,
            size,
            minimum_tick_size,
            order_type,
            post_only,
            raw_salt,
            timestamp_ms,
            funder,
            signer,
            signature_type,
            metadata,
            builder_field,
            expiration,
            maker_amount_override,
        ),
        r matches Ok(o) ==> (maker_amount_override is None && notional_is_exact(
            size,
            price,
            minimum_tick_size.scale as nat,
        ) && amounts_fit(size, price) ==> amounts_are_exact(
            side,
            size,
            price,
            o.order.maker_amount,
            o.order.taker_amount,
        )),
{
    if signature_type == SignatureType::Poly1271 {
        return Err(OrderError::SignatureTypeNotImplemented);
    }
    let places = minimum_tick_size.scale();
    let (taker_amount, maker_amount) = match side {
        Side::Buy => {
            let taker = to_fixed_u128(size);
            let maker = match maker_amount_override {
                Some(m) => m,
                None => to_fixed_u128(notional(size, price, places)),
            };
            (taker, maker)
        },
        Side::Sell => {
            let maker = to_fixed_u128(size);
            let taker = to_fixed_u128(notional(size, price, places));
            (taker, maker)
        },
        Side::Unknown => return Err(OrderError::InvalidSide { side }),
    };
    proof {
        if amounts_fit(size, price) && !size.negative {
            law_to_fixed_quantizes(size);
        }
    }
    let salt = to_ieee_754_int(raw_salt);
    let timestamp = compute_timestamp(timestamp_ms);
    let order = OrderV2 {
        salt,
        maker: funder.unwrap_or(signer),
        signer,
        token_id,
        maker_amount,
        taker_amount,
        side: side.code(),
        signature_type: signature_type.code(),
        timestamp,
        metadata,
        builder: builder_field,
    };
    Ok(SignableOrderV2 { order, order_type, post_only: Some(post_only), expiration })
}

/// Whether second-version assembly would quantize a negative notional that
/// `to_fixed_u128` cannot represent: the product is computed, the size and
/// price have opposite signs, and the truncated product is below zero.
pub open spec fn notional_unrepresentable(
    side: Side,
    price: Dec,
    size: Dec,
    minimum_tick_size: Dec,
    signature_type: SignatureType,
    maker_amount_override: Option<u128>,
) -> bool {
    &&& signature_type != SignatureType::Poly1271
    &&& uses_notional(side, maker_amount_override)
    &&& size.negative != price.negative
    &&& !fixed_ok(notional_spec(size, price, minimum_tick_size.scale as nat))
}

/// Assembles a second-version order as `assemble_signable_order_v2` does, first
/// testing that its notional can be quantized: `None` when it cannot (where
/// `assemble_signable_order_v2` may not be called).
pub fn try_assemble_signable_order_v2(
    token_id: U256,
    side: Side,
    price: Dec,
    size: Dec,
    minimum_tick_size: Dec,
    order_type: OrderType,
    post_only: bool,
    raw_salt: u64,
    timestamp_ms: i64,
    funder: Option<Address>,
    signer: Address,
    signature_type: SignatureType,
    metadata: B256,
    builder_field: B256,
    expiration: U256,
    maker_amount_override: Option<u128>,
) -> (r: Option<Result<SignableOrderV2, OrderError>>)
    requires
        price.wf(),
        size.wf(),
        minimum_tick_size.wf(),
        minimum_tick_size.scale + LOT_SIZE_SCALE <= 28,
        signature_type != SignatureType::Poly1271 && side != Side::Unknown ==> timestamp_ms >= 0
            && fixed_ok(size),
        signature_type != SignatureType::Poly1271 && uses_notional(side, maker_amount_override)
            ==> mul_in_range(size, price),
    ensures
        r is None <==> notional_unrepresentable(
            side,
            price,
            size,
            minimum_tick_size,
            signature_type,
            maker_amount_override,
        ),
        r matches Some(x) ==> x == assembled_order_v2(
            token_id,
            side,
            price,
            size,
            minimum_tick_size,
            order_type,
            post_only,
            raw_salt,
            timestamp_ms,
            funder,
            signer,
            signature_type,
            metadata,
            builder_field,
            expiration,
            maker_amount_override,
        ),
{
    let computes_notional = (side == Side::Buy && maker_amount_override.is_none()) || side
        == Side::Sell;
    if signature_type != SignatureType::Poly1271 && computes_notional && size.negative
        != price.negative {
        let n = notional(size, price, minimum_tick_size.scale());
        let fixed = dec_trunc_with_scale(dec_normalize(n), USDC_DECIMALS);
        if n.negative && fixed.mantissa < 0 {
            return None;
        }
    }
    Some(
        assemble_signable_order_v2(
            token_id,
            side,
            price,
            size,
            minimum_tick_size,
            order_type,
            post_only,
            raw_salt,
            timestamp_ms,
            funder,
            signer,
            signature_type,
            metadata,
            builder_field,
            expiration,
            maker_amount_override,
        ),
    )
}

/// The checks of a second-version limit order before assembly: the fields
/// that assembly takes, or the first failed check.
pub open spec fn limit_v2_prepared(b: OrderBuilder<Limit>, tick: TickSize) -> Result<
    (U256, Side, Dec, Dec, OrderType, bool, U256),
    OrderError,
> {
    match b.token_id {
        None => Err(OrderError::MissingTokenId),
        Some(token_id) => match b.side {
            None => Err(OrderError::MissingSide),
            Some(side) => match b.price {
                None => Err(OrderError::MissingPrice),
                Some(price) => match limit_price_error(price, tick) {
                    Some(e) => Err(e),
                    None => match b.size {
                        None => Err(OrderError::MissingSize),
                        Some(size) => match limit_size_error(size) {
                            Some(e) => Err(e),
                            None => {
                                let order_type = b.order_type.unwrap_or(OrderType::GTC);
                                let post_only = b.post_only.unwrap_or(false);
                                if post_only && !order_type.is_resting() {
                                    Err(OrderError::PostOnlyRequiresResting)
                                } else {
                                    match b.expiration {
                                        None => Ok(
                                            (token_id, side, price, size, order_type, post_only,
                                            U256::spec_from_u64(0)),
                                        ),
                                        Some(dt) => if dt.secs < 0 {
                                            Err(OrderError::ExpirationNotRepresentable { expiration: dt })
                                        } else {
                                            Ok(
                                                (token_id, side, price, size, order_type, post_only,
                                                U256::spec_from_u64(dt.secs as u64)),
                                            )
                                        },
                                    }
                                }
                            },
                        },
                    },
                },
            },
        },
    }
}

/// What `OrderBuilder::<Limit>::build_v2` gives, for the tick size of the
/// token, the salt that the generator drew and the millisecond clock.
pub open spec fn limit_order_v2(
    b: OrderBuilder<Limit>,
    tick: TickSize,
    raw_salt: u64,
    timestamp_ms: i64,
) -> Result<SignableOrderV2, OrderError> {
    match limit_v2_prepared(b, tick) {
        Err(e) => Err(e),
        Ok((token_id, side, price, size, order_type, post_only, expiration)) => assembled_order_v2(
            token_id,
            side,
            price,
            size,
            tick.spec_as_decimal(),
            order_type,
            post_only,
            raw_salt,
            timestamp_ms,
            b.funder,
            b.signer,
            b.signature_type,
            b.metadata,
            b.builder_field,
            expiration,
            None,
        ),
    }
}

/// Whether a second-version build reads the clock: its checks passed, the side
/// is known and the signature type is supported.
pub open spec fn reads_clock(checks_passed: bool, side: Option<Side>, signature_type: SignatureType) -> bool {
    checks_passed && side != Some(Side::Unknown) && signature_type != SignatureType::Poly1271
}

impl OrderBuilder<Limit> {
    /// Builds a V2 signable order. Mirrors [`build`] but targets [`OrderV2`]
    /// fields; the expiration (zero when unset) travels beside them.
    pub fn build_v2(self, tick: TickSize, raw_salt: u64, timestamp_ms: i64) -> (r: Result<
        SignableOrderV2,
        OrderError,
    >)
        requires
            self.wf(),
            reads_clock(limit_v2_prepared(self, tick) is Ok, self.side, self.signature_type)
                ==> timestamp_ms >= 0,
        ensures
            r == limit_order_v2(self, tick, raw_salt, timestamp_ms),
            r matches Ok(o) ==> (amounts_fit(self.size->0, self.price->0) ==> amounts_are_exact(
                self.side->0,
                self.size->0,
                self.price->0,
                o.order.maker_amount,
                o.order.taker_amount,
            )),
    {
        let token_id = match self.token_id {
            Some(t) => t,
            None => return Err(OrderError::MissingTokenId),
        };
        let side = match self.side {
            Some(s) => s,
            None => return Err(OrderError::MissingSide),
        };
        let price = match self.price {
            Some(p) => p,
            None => return Err(OrderError::MissingPrice),
        };
        if let Some(e) = check_limit_price(price, tick) {
            return Err(e);
        }
        let size = match self.size {
            Some(s) => s,
            None => return Err(OrderError::MissingSize),
        };
        if let Some(e) = check_limit_size(size) {
            return Err(e);
        }
        let order_type = self.order_type.unwrap_or(OrderType::GTC);
        let post_only = self.post_only.unwrap_or(false);
        if post_only && !(order_type == OrderType::GTC || order_type == OrderType::GTD) {
            return Err(OrderError::PostOnlyRequiresResting);
        }
        let expiration_secs = match self.expiration {
            None => U256::zero(),
            Some(dt) => {
                if dt.secs < 0 {
                    return Err(OrderError::ExpirationNotRepresentable { expiration: dt });
                }
                U256::from_u64(dt.secs as u64)
            },
        };
        let tick_decimal = tick.as_decimal();
        proof {
            lemma_mul_by_price_in_range(size, price);
        }
        assemble_signable_order_v2(
            token_id,
            side,
            price,
            size,
            tick_decimal,
            order_type,
            post_only,
            raw_salt,
            timestamp_ms,
            self.funder,
            self.signer,
            self.signature_type,
            self.metadata,
            self.builder_field,
            expiration_secs,
            None,
        )
    }

    /// Build into an [`AnySignableOrder`], dispatching on the builder's configured
    /// `order_version`. V1 produces [`SignableOrder`]; V2 produces [`SignableOrderV2`].
    pub fn build_any(
        self,
        fee_rate_bps: u64,
        tick: TickSize,
        raw_salt: u64,
        timestamp_ms: i64,
    ) -> (r: Result<AnySignableOrder, OrderError>)
        requires
            self.wf(),
            self.order_version == OrderVersion::V2 && reads_clock(
                limit_v2_prepared(self, tick) is Ok,
                self.side,
                self.signature_type,
            ) ==> timestamp_ms >= 0,
        ensures
            self.order_version == OrderVersion::V1 ==> r == match limit_order_v1(
                self,
                fee_rate_bps,
                tick,
                raw_salt,
            ) {
                Ok(o) => Ok(AnySignableOrder::V1(o)),
                Err(e) => Err(e),
            },
            self.order_version == OrderVersion::V2 ==> r == match limit_order_v2(
                self,
                tick,
                raw_salt,
                timestamp_ms,
            ) {
                Ok(o) => Ok(AnySignableOrder::V2(o)),
                Err(e) => Err(e),
            },
    {
        match self.order_version {
            OrderVersion::V1 => match self.build(fee_rate_bps, tick, raw_salt) {
                Ok(o) => Ok(AnySignableOrder::V1(o)),
                Err(e) => Err(e),
            },
            OrderVersion::V2 => match self.build_v2(tick, raw_salt, timestamp_ms) {
                Ok(o) => Ok(AnySignableOrder::V2(o)),
                Err(e) => Err(e),
            },
        }
    }
}

/// `to_fixed_u128` quantizes a non-negative decimal to millionths, truncating:
/// it gives `floor(value * 10^6)` whenever that fits in 96 bits.
pub proof fn law_to_fixed_quantizes(d: Dec)
    requires
        d.wf(),
        !d.negative,
        (d.mag() * pow10(6)) / pow10(d.scale as nat) <= MAX_MANTISSA,
    ensures
        to_fixed_spec(d) == (d.mag() * pow10(6)) / pow10(d.scale as nat),
{
    let m = d.mag();
    let s = d.scale as nat;
    lemma_pow10_pos(s);
    lemma_pow10_pos(6);
    if m == 0 {
        assert(normalize_spec(d) == Dec::spec_zero());
        assert(0 * pow10(6) == 0);
        vstd::arithmetic::div_mod::lemma_div_by_multiple(0, pow10(s) as int);
    } else {
        lemma_strip_zeros(m, s);
        let (m2, s2) = strip_zeros(m, s);
        let x = pow10((s - s2) as nat);
        lemma_pow10_pos((s - s2) as nat);
        assert(m2 * x == m);
        assert(m2 <= m) by (nonlinear_arith)
            requires
                m2 * x == m,
                x >= 1,
                m2 > 0,
        ;
        let n = normalize_spec(d);
        assert(n == Dec { mantissa: m2 as i128, scale: s2 as u32, negative: false });
        lemma_pow10_add((s - s2) as nat, s2);
        assert(pow10(s) == x * pow10(s2));
        if s2 == 6 {
            assert(m * pow10(6) == m2 * (x * pow10(6))) by (nonlinear_arith)
                requires
                    m2 * x == m,
            ;
            assert((m2 * (x * pow10(6))) / (1 * (x * pow10(6))) == m2 / 1) by {
                lemma_cancel_factor(m2 as int, (x * pow10(6)) as int, 1);
            }
            assert(to_fixed_spec(d) == m2);
        } else if s2 > 6 {
            let e = (s2 - 6) as nat;
            lemma_pow10_add(e, 6);
            lemma_pow10_pos(e);
            assert(pow10(s) == pow10(e) * (x * pow10(6))) by (nonlinear_arith)
                requires
                    pow10(s) == x * pow10(s2),
                    pow10(s2) == pow10(e) * pow10(6),
            ;
            assert(m * pow10(6) == m2 * (x * pow10(6))) by (nonlinear_arith)
                requires
                    m2 * x == m,
            ;
            assert(x * pow10(6) > 0) by (nonlinear_arith)
                requires
                    x >= 1,
                    pow10(6) >= 1,
            ;
            lemma_cancel_factor(m2 as int, (x * pow10(6)) as int, pow10(e) as int);
            assert(trunc_with_scale_spec(n, 6).mantissa == m2 / pow10(e));
        } else {
            let e = (6 - s2) as nat;
            lemma_pow10_add(e, s2);
            lemma_pow10_pos(e);
            lemma_pow10_pos(s2);
            assert(m * pow10(6) == (m2 * pow10(e)) * (x * pow10(s2))) by (nonlinear_arith)
                requires
                    m2 * x == m,
                    pow10(6) == pow10(e) * pow10(s2),
            ;
            lemma_cancel_factor((m2 * pow10(e)) as int, (x * pow10(s2)) as int, 1);
            assert((m * pow10(6)) / pow10(s) == m2 * pow10(e));
            lemma_upscale_full(m2, e);
            assert(trunc_with_scale_spec(n, 6).mantissa == m2 * pow10(e));
        }
    }
}

/// The checks of a limit order that come before anything is fetched: token,
/// side and price present, and the price not negative; the token to fetch for.
pub open spec fn limit_prefetch(b: OrderBuilder<Limit>) -> Result<U256, OrderError> {
    match b.token_id {
        None => Err(OrderError::MissingTokenId),
        Some(token_id) => match b.side {
            None => Err(OrderError::MissingSide),
            Some(_) => match b.price {
                None => Err(OrderError::MissingPrice),
                Some(price) => if price.negative {
                    Err(OrderError::NegativePrice { price })
                } else {
                    Ok(token_id)
                },
            },
        },
    }
}

impl OrderBuilder<Limit> {
    /// Runs the checks that precede fetching the token's fee rate and tick size,
    /// and gives the token to fetch them for.
    pub fn check_before_fetch(&self) -> (r: Result<U256, OrderError>)
        ensures
            r == limit_prefetch(*self),
    {
        let token_id = match self.token_id {
            Some(t) => t,
            None => return Err(OrderError::MissingTokenId),
        };
        if self.side.is_none() {
            return Err(OrderError::MissingSide);
        }
        let price = match self.price {
            Some(p) => p,
            None => return Err(OrderError::MissingPrice),
        };
        if price.is_sign_negative() {
            return Err(OrderError::NegativePrice { price });
        }
        Ok(token_id)
    }
}

} // verus!
