//! Market orders: the price from the top of the book when the order has none,
//! and the amounts of collateral and share orders.
use crate::decimal::{
    add_in_range, dec_add, dec_div, dec_lt, dec_lt_spec, dec_mul, dec_to_u128,
    dec_trunc_with_scale, decimal_add, decimal_div, decimal_mul, div_in_range, lemma_pow10_small,
    lemma_pow10_add, lemma_pow10_pos, lemma_strip_power, lemma_trunc_floor, mul_in_range, pow10, scaled_floor, strip_zeros, to_u128_spec, trunc_with_scale_spec, Dec,
    MAX_MANTISSA,
};
use crate::overflow::{fits_add, fits_div, fits_mul};
use crate::order_builder::{
    amounts_are_exact, amounts_fit, assemble_signable_order_v2, assembled_order_v2,
    check_price_range, law_to_fixed_quantizes, lemma_mul_by_price_in_range, notional, notional_spec,
    price_in_range, reads_clock, salt_bound, size_millionths, to_fixed_spec, to_fixed_u128,
    to_ieee_754_int, Market, OrderBuilder, LOT_SIZE_SCALE,
};
use crate::types::{
    levels_wf, Address, Amount, AmountInner, AnySignableOrder, BookLevel, Order, OrderBook,
    OrderError, OrderType, OrderVersion, SignableOrder, SignableOrderV2, Side, TickSize, U256,
};
use vstd::prelude::*;

verus! {

/// What a book level adds to the running total: its notional when the amount
/// is collateral, its size when it is shares.
pub open spec fn level_contribution(level: BookLevel, in_usdc: bool) -> Dec {
    if in_usdc {
        decimal_mul(level.size, level.price)
    } else {
        level.size
    }
}

/// Walks `levels` from the last one down, adding each level's contribution to
/// `sum`; the price of the first level at which the total reaches `target`.
pub open spec fn cutoff_walk(levels: Seq<BookLevel>, in_usdc: bool, target: Dec, sum: Dec) -> Option<
    Dec,
>
    decreases levels.len(),
{
    if levels.len() == 0 {
        None
    } else {
        let level = levels.last();
        let next = decimal_add(sum, level_contribution(level, in_usdc));
        if !dec_lt_spec(next, target) {
            Some(level.price)
        } else {
            cutoff_walk(levels.drop_last(), in_usdc, target, next)
        }
    }
}

/// Every product and sum of the walk stays within `Decimal::MAX`.
pub open spec fn walk_in_range(levels: Seq<BookLevel>, in_usdc: bool, target: Dec, sum: Dec) -> bool
    decreases levels.len(),
{
    if levels.len() == 0 {
        true
    } else {
        let level = levels.last();
        let c = level_contribution(level, in_usdc);
        let next = decimal_add(sum, c);
        &&& (in_usdc ==> mul_in_range(level.size, level.price))
        &&& add_in_range(sum, c)
        &&& (dec_lt_spec(next, target) ==> walk_in_range(levels.drop_last(), in_usdc, target, next))
    }
}

/// The side of the book that a market order walks, and whether its amount is
/// collateral; or why it cannot walk one.
pub open spec fn walked_levels(side: Side, amount: Amount, book: OrderBook) -> Result<
    (Seq<BookLevel>, bool),
    OrderError,
> {
    match side {
        Side::Buy => Ok((book.asks@, amount.0 is Usdc)),
        Side::Sell => match amount.0 {
            AmountInner::Shares(_) => Ok((book.bids@, false)),
            AmountInner::Usdc(_) => Err(OrderError::SellAmountInUsdc),
        },
        Side::Unknown => Err(OrderError::InvalidSide { side }),
    }
}

/// The market price from the top of the book: the price of the level at which
/// the opposing depth covers the amount; when it never does, an error for a
/// fill-or-kill order and the first level's price otherwise.
pub open spec fn market_price(
    token_id: U256,
    side: Side,
    amount: Amount,
    order_type: OrderType,
    book: OrderBook,
) -> Result<Dec, OrderError> {
    if !order_type.is_immediate() {
        Err(OrderError::MarketOrderTypeNotImmediate)
    } else {
        match walked_levels(side, amount, book) {
            Err(e) => Err(e),
            Ok((levels, in_usdc)) => if levels.len() == 0 {
                Err(OrderError::NoOpposingOrders { token_id })
            } else {
                match cutoff_walk(levels, in_usdc, amount.spec_as_inner(), Dec::spec_zero()) {
                    Some(p) => Ok(p),
                    None => if order_type == OrderType::FOK {
                        Err(
                            OrderError::InsufficientLiquidity {
                                token_id,
                                amount: amount.spec_as_inner(),
                            },
                        )
                    } else {
                        Ok(levels[0].price)
                    },
                }
            },
        }
    }
}

/// The walk that `market_price` makes stays within `Decimal::MAX`.
pub open spec fn market_walk_ok(side: Side, amount: Amount, order_type: OrderType, book: OrderBook) -> bool {
    order_type.is_immediate() ==> match walked_levels(side, amount, book) {
        Ok((levels, in_usdc)) => walk_in_range(levels, in_usdc, amount.spec_as_inner(), Dec::spec_zero()),
        Err(_) => true,
    }
}

/// Attempts to calculate the market price from the top of the book for the particular token.
/// - Uses an orderbook depth search to find the cutoff price:
///   - BUY + USDC: walk asks until notional >= USDC
///   - BUY + Shares: walk asks until shares >= N
///   - SELL + Shares: walk bids until shares >= N
fn calculate_price(token_id: U256, side: Side, amount: Amount, order_type: OrderType, book: &OrderBook) -> (r:
    Result<Dec, OrderError>)
    requires
        amount.wf(),
        book.wf(),
        market_walk_ok(side, amount, order_type, *book),
    ensures
        r == market_price(token_id, side, amount, order_type, *book),
        r matches Ok(p) ==> p.wf(),
{
    if !(order_type == OrderType::FAK || order_type == OrderType::FOK) {
        return Err(OrderError::MarketOrderTypeNotImmediate);
    }
    let (levels, in_usdc): (&Vec<BookLevel>, bool) = match side {
        Side::Buy => (&book.asks, matches!(amount.0, AmountInner::Usdc(_))),
        Side::Sell => match amount.0 {
            AmountInner::Shares(_) => (&book.bids, false),
            AmountInner::Usdc(_) => return Err(OrderError::SellAmountInUsdc),
        },
        Side::Unknown => return Err(OrderError::InvalidSide { side }),
    };
    if levels.len() == 0 {
        return Err(OrderError::NoOpposingOrders { token_id });
    }
    let target = amount.as_inner();
    let ghost all = levels@;
    let mut i: usize = levels.len();
    let mut sum = Dec::zero();
    let mut cutoff: Option<Dec> = None;
    proof {
        assert(all.subrange(0, all.len() as int) =~= all);
    }
    while i > 0
        invariant_except_break
            cutoff is None,
            cutoff_walk(all.subrange(0, i as int), in_usdc, target, sum) == cutoff_walk(
                all,
                in_usdc,
                target,
                Dec::spec_zero(),
            ),
            walk_in_range(all.subrange(0, i as int), in_usdc, target, sum),
        invariant
            all == levels@,
            levels_wf(all),
            i <= all.len(),
            sum.wf(),
            target.wf(),
        ensures
            cutoff == cutoff_walk(all, in_usdc, target, Dec::spec_zero()),
            cutoff matches Some(p) ==> p.wf(),
        decreases i,
    {
        let level = levels[i - 1];
        let ghost prefix = all.subrange(0, i as int);
        proof {
            assert(prefix.last() == level);
            assert(prefix.drop_last() =~= all.subrange(0, i - 1));
        }
        let c = if in_usdc {
            dec_mul(level.size, level.price)
        } else {
            level.size
        };
        sum = dec_add(sum, c);
        if !dec_lt(sum, target) {
            cutoff = Some(level.price);
            break;
        }
        i -= 1;
    }
    proof {
        if cutoff is None {
            assert(all.subrange(0, 0) =~= Seq::<BookLevel>::empty());
        }
    }
    match cutoff {
        Some(p) => Ok(p),
        None => {
            if order_type == OrderType::FOK {
                Err(OrderError::InsufficientLiquidity { token_id, amount: target })
            } else {
                Ok(levels[0].price)
            }
        },
    }
}

/// The checks of a first-version market order before it is priced: token,
/// side and amount present, and not post-only; the order type defaults to
/// fill-and-kill.
pub open spec fn market_v1_pre(b: OrderBuilder<Market>) -> Result<(U256, Side, Amount, OrderType), OrderError> {
    match b.token_id {
        None => Err(OrderError::MissingTokenId),
        Some(token_id) => match b.side {
            None => Err(OrderError::MissingSide),
            Some(side) => match b.amount {
                None => Err(OrderError::MissingAmount),
                Some(amount) => {
                    let order_type = b.order_type.unwrap_or(OrderType::FAK);
                    if b.post_only == Some(true) {
                        Err(OrderError::PostOnlyOnMarketOrder)
                    } else {
                        Ok((token_id, side, amount, order_type))
                    }
                },
            },
        },
    }
}

/// The checks of a second-version market order before it is priced: token,
/// side and amount present, an immediate order type (fill-and-kill by
/// default), and not post-only.
pub open spec fn market_v2_pre(b: OrderBuilder<Market>) -> Result<(U256, Side, Amount, OrderType), OrderError> {
    match b.token_id {
        None => Err(OrderError::MissingTokenId),
        Some(token_id) => match b.side {
            None => Err(OrderError::MissingSide),
            Some(side) => match b.amount {
                None => Err(OrderError::MissingAmount),
                Some(amount) => {
                    let order_type = b.order_type.unwrap_or(OrderType::FAK);
                    if !order_type.is_immediate() {
                        Err(OrderError::V2MarketOrderTypeNotImmediate)
                    } else if b.post_only == Some(true) {
                        Err(OrderError::PostOnlyOnMarketOrder)
                    } else {
                        Ok((token_id, side, amount, order_type))
                    }
                },
            },
        },
    }
}

/// The price truncated to the places of the tick, if it then lies in range.
pub open spec fn market_tick_price(price: Dec, tick: TickSize) -> Result<Dec, OrderError> {
    let p = trunc_with_scale_spec(price, tick.places());
    if price_in_range(p, tick) {
        Ok(p)
    } else {
        Err(OrderError::PriceOutOfRange { price: p, tick: tick.spec_as_decimal() })
    }
}

/// A market order after its price is settled: the order's own price or the
/// book's, truncated to the tick and checked against its range.
pub open spec fn market_priced(
    pre: Result<(U256, Side, Amount, OrderType), OrderError>,
    own_price: Option<Dec>,
    book: OrderBook,
    tick: TickSize,
) -> Result<(U256, Side, Amount, OrderType, Dec), OrderError> {
    match pre {
        Err(e) => Err(e),
        Ok((token_id, side, amount, order_type)) => {
            let raw_price = match own_price {
                Some(p) => Ok(p),
                None => market_price(token_id, side, amount, order_type, book),
            };
            match raw_price {
                Err(e) => Err(e),
                Ok(p) => match market_tick_price(p, tick) {
                    Err(e) => Err(e),
                    Ok(pt) => Ok((token_id, side, amount, order_type, pt)),
                },
            }
        },
    }
}

/// The (taker, maker) decimal amounts of a first-version market order, given
/// the quotient `amount / price` as `rust_decimal` computed it: a collateral
/// buy takes the quotient truncated to the tick's places plus two as shares
/// for the amount, a share buy takes the shares for `shares * price`, a share
/// sell gives the shares for `shares * price`; a collateral sell is refused.
pub open spec fn market_v1_amounts(side: Side, amount: Amount, price: Dec, places: nat, quotient: Dec) -> Result<
    (Dec, Dec),
    OrderError,
> {
    let raw = amount.spec_as_inner();
    match side {
        Side::Buy => match amount.0 {
            AmountInner::Usdc(_) => Ok(
                (trunc_with_scale_spec(quotient, places + LOT_SIZE_SCALE as nat), raw),
            ),
            AmountInner::Shares(_) => Ok((raw, notional_spec(raw, price, places))),
        },
        Side::Sell => match amount.0 {
            AmountInner::Usdc(_) => Err(OrderError::SellAmountInUsdc),
            AmountInner::Shares(_) => Ok((notional_spec(raw, price, places), raw)),
        },
        Side::Unknown => Err(OrderError::InvalidSide { side }),
    }
}

/// A first-version market order once its price is settled, for the quotient
/// `amount / price` that a collateral buy uses.
pub open spec fn market_v1_order_priced(
    b: OrderBuilder<Market>,
    token_id: U256,
    side: Side,
    amount: Amount,
    order_type: OrderType,
    price: Dec,
    tick: TickSize,
    fee_rate_bps: u64,
    raw_salt: u64,
    quotient: Dec,
) -> Result<SignableOrder, OrderError> {
    match market_v1_amounts(side, amount, price, tick.places(), quotient) {
        Err(e) => Err(e),
        Ok((taker_amount, maker_amount)) => Ok(
            SignableOrder {
                order: Order {
                    salt: (raw_salt % (salt_bound() as u64)) as u64,
                    maker: b.funder.unwrap_or(b.signer),
                    taker: b.taker.unwrap_or(Address::spec_zero()),
                    token_id,
                    maker_amount: to_fixed_spec(maker_amount),
                    taker_amount: to_fixed_spec(taker_amount),
                    side: side.spec_code(),
                    fee_rate_bps,
                    nonce: b.nonce.unwrap_or(0),
                    signer: b.signer,
                    expiration: 0,
                    signature_type: b.signature_type.spec_code(),
                },
                order_type,
                post_only: None,
            },
        ),
    }
}

/// What `OrderBuilder::<Market>::build` gives, for the order book of the token
/// (used when the builder has no price), its tick size and fee rate, and the
/// salt that the generator drew.
pub open spec fn market_order_v1(
    b: OrderBuilder<Market>,
    book: OrderBook,
    tick: TickSize,
    fee_rate_bps: u64,
    raw_salt: u64,
) -> Result<SignableOrder, OrderError> {
    match market_priced(market_v1_pre(b), b.price, book, tick) {
        Err(e) => Err(e),
        Ok((token_id, side, amount, order_type, price)) => market_v1_order_priced(
            b,
            token_id,
            side,
            amount,
            order_type,
            price,
            tick,
            fee_rate_bps,
            raw_salt,
            decimal_div(amount.spec_as_inner(), price),
        ),
    }
}

/// The places of the collateral token as a decimal multiplier, `10^6`.
pub open spec fn usdc_unit() -> Dec {
    Dec::spec_with_scale(1000000, 0)
}

/// A non-negative decimal rounded down to lot precision (two places), as a
/// whole number of hundredths.
pub open spec fn lot_floor(d: Dec) -> nat {
    scaled_floor(d.mag(), d.scale as nat, LOT_SIZE_SCALE as nat)
}

/// The size of a second-version market order and, for a collateral buy, its
/// maker amount: the collateral rounded down to lot precision, in base units;
/// a collateral buy's size is the quotient `amount / price` truncated to the
/// tick's places plus two.
pub open spec fn market_v2_sized(side: Side, amount: Amount, price: Dec, places: nat, quotient: Dec) -> Result<
    (Dec, Option<u128>),
    OrderError,
> {
    let raw = amount.spec_as_inner();
    match side {
        Side::Buy => match amount.0 {
            AmountInner::Usdc(_) => {
                let shares = trunc_with_scale_spec(quotient, places + LOT_SIZE_SCALE as nat);
                let maker = decimal_mul(trunc_with_scale_spec(raw, LOT_SIZE_SCALE as nat), usdc_unit());
                match to_u128_spec(maker) {
                    None => Err(OrderError::MakerAmountOverflow),
                    Some(m) => Ok((shares, Some(m))),
                }
            },
            AmountInner::Shares(_) => Ok((raw, None)),
        },
        Side::Sell => match amount.0 {
            AmountInner::Usdc(_) => Err(OrderError::SellAmountInUsdc),
            AmountInner::Shares(_) => Ok((raw, None)),
        },
        Side::Unknown => Err(OrderError::InvalidSide { side }),
    }
}

/// The size and maker amount of a second-version market order, given the
/// quotient a collateral buy uses, or the first failed check (the size must be
/// positive).
pub open spec fn market_v2_checked(side: Side, amount: Amount, price: Dec, places: nat, quotient: Dec) -> Result<
    (Dec, Option<u128>),
    OrderError,
> {
    match market_v2_sized(side, amount, price, places, quotient) {
        Err(e) => Err(e),
        Ok((size, maker_override)) => if size.mantissa == 0 || size.negative {
            Err(OrderError::NonPositiveMarketSize { size })
        } else {
            Ok((size, maker_override))
        },
    }
}

/// The checks of a second-version market order before assembly: the fields
/// that assembly takes, or the first failed check.
pub open spec fn market_v2_prepared(b: OrderBuilder<Market>, book: OrderBook, tick: TickSize) -> Result<
    (U256, Side, Dec, Dec, OrderType, Option<u128>),
    OrderError,
> {
    match market_priced(market_v2_pre(b), b.price, book, tick) {
        Err(e) => Err(e),
        Ok((token_id, side, amount, order_type, price)) => match market_v2_checked(
            side,
            amount,
            price,
            tick.places(),
            decimal_div(amount.spec_as_inner(), price),
        ) {
            Err(e) => Err(e),
            Ok((size, maker_override)) => Ok((token_id, side, price, size, order_type, maker_override)),
        },
    }
}

/// A second-version market order once its price is settled, for the quotient
/// `amount / price` that a collateral buy uses.
pub open spec fn market_v2_order_priced(
    b: OrderBuilder<Market>,
    token_id: U256,
    side: Side,
    amount: Amount,
    order_type: OrderType,
    price: Dec,
    tick: TickSize,
    raw_salt: u64,
    timestamp_ms: i64,
    quotient: Dec,
) -> Result<SignableOrderV2, OrderError> {
    match market_v2_checked(side, amount, price, tick.places(), quotient) {
        Err(e) => Err(e),
        Ok((size, maker_override)) => assembled_order_v2(
            token_id,
            side,
            price,
            size,
            tick.spec_as_decimal(),
            order_type,
            false,
            raw_salt,
            timestamp_ms,
            b.funder,
            b.signer,
            b.signature_type,
            b.metadata,
            b.builder_field,
            U256::spec_from_u64(0),
            maker_override,
        ),
    }
}

/// What `OrderBuilder::<Market>::build_v2` gives.
pub open spec fn market_order_v2(
    b: OrderBuilder<Market>,
    book: OrderBook,
    tick: TickSize,
    raw_salt: u64,
    timestamp_ms: i64,
) -> Result<SignableOrderV2, OrderError> {
    match market_priced(market_v2_pre(b), b.price, book, tick) {
        Err(e) => Err(e),
        Ok((token_id, side, amount, order_type, price)) => market_v2_order_priced(
            b,
            token_id,
            side,
            amount,
            order_type,
            price,
            tick,
            raw_salt,
            timestamp_ms,
            decimal_div(amount.spec_as_inner(), price),
        ),
    }
}

/// The book walk of a market order without a price stays within `Decimal::MAX`.
pub open spec fn market_walk_needed_ok(
    pre: Result<(U256, Side, Amount, OrderType), OrderError>,
    own_price: Option<Dec>,
    book: OrderBook,
) -> bool {
    match pre {
        Ok((token_id, side, amount, order_type)) => own_price is None ==> market_walk_ok(
            side,
            amount,
            order_type,
            book,
        ),
        Err(_) => true,
    }
}

/// A collateral buy's quotient `amount / price` stays within `Decimal::MAX`.
pub open spec fn market_quotient_ok(priced: Result<(U256, Side, Amount, OrderType, Dec), OrderError>) -> bool {
    match priced {
        Ok((token_id, side, amount, order_type, price)) => side == Side::Buy && amount.0 is Usdc
            ==> div_in_range(amount.spec_as_inner(), price),
        Err(_) => true,
    }
}

/// A collateral buy's maker amount in base units stays within `Decimal::MAX`.
pub open spec fn market_maker_units_ok(priced: Result<(U256, Side, Amount, OrderType, Dec), OrderError>) -> bool {
    match priced {
        Ok((token_id, side, amount, order_type, price)) => side == Side::Buy && amount.0 is Usdc
            ==> mul_in_range(
            trunc_with_scale_spec(amount.spec_as_inner(), LOT_SIZE_SCALE as nat),
            usdc_unit(),
        ),
        Err(_) => true,
    }
}

/// The amounts of a market order priced at `price` are exact: share amounts
/// are the shares and their notional in millionths; a first-version collateral
/// buy's maker amount is the collateral in millionths (when that fits in 96
/// bits), and a second-version one's is the collateral rounded down to lot
/// precision, in millionths.
pub open spec fn market_amounts_exact(
    priced: Result<(U256, Side, Amount, OrderType, Dec), OrderError>,
    tick: TickSize,
    maker: u128,
    taker: u128,
    v2: bool,
) -> bool {
    match priced {
        Ok((token_id, side, amount, order_type, price)) => {
            let raw = amount.spec_as_inner();
            &&& (amount.0 is Shares && raw.scale + price.scale <= tick.places() + LOT_SIZE_SCALE
                && amounts_fit(raw, price) ==> amounts_are_exact(side, raw, price, maker, taker))
            &&& (!v2 && amount.0 is Usdc && side == Side::Buy && size_millionths(raw) <= MAX_MANTISSA
                ==> maker == size_millionths(raw))
            &&& (v2 && amount.0 is Usdc && side == Side::Buy ==> maker == lot_floor(raw) * 10000)
        },
        Err(_) => true,
    }
}

/// The collateral rounded down to lot precision, times a million, is exactly
/// its hundredths times ten thousand, and `to_u128` reads that back whole.
proof fn lemma_lot_units(raw: Dec, lot: Dec, units: Dec)
    requires
        raw.wf(),
        !raw.negative,
        lot == trunc_with_scale_spec(raw, LOT_SIZE_SCALE as nat),
        lot.wf(),
        units.wf(),
        units == decimal_mul(lot, Dec::spec_with_scale(1000000, 0)),
        mul_in_range(lot, usdc_unit()),
        !units.negative,
        (lot.mantissa == 0) ==> units == Dec::spec_zero(),
        (lot.mantissa != 0 && strip_zeros(lot.mag() * 1000000, (lot.scale + 0) as nat).0 <= MAX_MANTISSA
            && strip_zeros(lot.mag() * 1000000, (lot.scale + 0) as nat).1 <= 28) ==> units.mantissa
            * pow10((lot.scale + 0) as nat) == (lot.mantissa * 1000000) * pow10(units.scale as nat),
    ensures
        lot_floor(raw) * 10000 <= MAX_MANTISSA,
        to_u128_spec(units) == Some((lot_floor(raw) * 10000) as u128),
{
    let lf = lot_floor(raw);
    let ts = lot.scale as nat;
    lemma_pow10_small();
    lemma_trunc_floor(raw, 2);
    assert(ts <= 2);
    assert(lot.mantissa >= 0);
    let e = (2 - ts) as nat;
    lemma_pow10_add(e, ts);
    lemma_pow10_pos(ts);
    lemma_pow10_pos(e);
    assert(pow10(2) == pow10(e) * pow10(ts));
    // lf = lot.mag * 100 / 10^ts = lot.mag * 10^e
    assert(lot.mag() * pow10(2) == (lot.mag() * pow10(e)) * pow10(ts)) by (nonlinear_arith)
        requires
            pow10(2) == pow10(e) * pow10(ts),
    ;
    vstd::arithmetic::div_mod::lemma_div_by_multiple((lot.mag() * pow10(e)) as int, pow10(ts) as int);
    assert(lf == lot.mag() * pow10(e));
    // the product's value times 10^ts: lot.mag * 10^6 == lf * 10^4 * 10^ts
    assert(lot.mag() * 1000000 == (lf * 10000) * pow10(ts)) by (nonlinear_arith)
        requires
            lf == lot.mag() * pow10(e),
            pow10(e) * pow10(ts) == 100,
    ;
    // the range bound gives lf * 10^4 <= MAX
    assert(lf * 10000 <= MAX_MANTISSA) by (nonlinear_arith)
        requires
            lot.mag() * 1000000 <= MAX_MANTISSA * pow10(ts) * 1,
            lot.mag() * 1000000 == (lf * 10000) * pow10(ts),
            pow10(ts) > 0,
    ;
    if lot.mantissa == 0 {
        assert(lf == 0) by (nonlinear_arith)
            requires
                lf == lot.mag() * pow10(e),
                lot.mag() == 0,
        ;
        assert(to_u128_spec(units) == Some(0u128));
    } else {
        lemma_strip_power(lf * 10000, ts);
        assert(ts + 0 == ts);
        let us = units.scale as nat;
        lemma_pow10_pos(us);
        assert(units.mantissa >= 0);
        assert(units.mag() * pow10(ts) == ((lf * 10000) * pow10(us)) * pow10(ts)) by (nonlinear_arith)
            requires
                units.mag() * pow10(ts) == (lot.mag() * 1000000) * pow10(us),
                lot.mag() * 1000000 == (lf * 10000) * pow10(ts),
        ;
        assert(units.mag() == (lf * 10000) * pow10(us)) by (nonlinear_arith)
            requires
                units.mag() * pow10(ts) == ((lf * 10000) * pow10(us)) * pow10(ts),
                pow10(ts) > 0,
        ;
        vstd::arithmetic::div_mod::lemma_div_by_multiple((lf * 10000) as int, pow10(us) as int);
    }
}

/// Truncates a market price to the places of the tick and checks its range.
fn check_market_price(price: Dec, tick: TickSize) -> (r: Result<Dec, OrderError>)
    requires
        price.wf(),
    ensures
        r == market_tick_price(price, tick),
        r matches Ok(p) ==> p.wf() && 0 < p.mantissa < pow10(p.scale as nat),
{
    let t = tick.as_decimal();
    let p = dec_trunc_with_scale(price, t.scale());
    if check_price_range(p, tick) {
        Ok(p)
    } else {
        Err(OrderError::PriceOutOfRange { price: p, tick: t })
    }
}

/// Settles the price of a market order after its first checks.
fn price_market_order(
    pre: Result<(U256, Side, Amount, OrderType), OrderError>,
    own_price: Option<Dec>,
    book: &OrderBook,
    tick: TickSize,
) -> (r: Result<(U256, Side, Amount, OrderType, Dec), OrderError>)
    requires
        pre matches Ok((token_id, side, amount, order_type)) ==> amount.wf(),
        own_price matches Some(p) ==> p.wf(),
        book.wf(),
        market_walk_needed_ok(pre, own_price, *book),
    ensures
        r == market_priced(pre, own_price, *book, tick),
        r matches Ok((token_id, side, amount, order_type, p)) ==> amount.wf() && p.wf() && 0
            < p.mantissa < pow10(p.scale as nat),
{
    let (token_id, side, amount, order_type) = match pre {
        Err(e) => return Err(e),
        Ok(x) => x,
    };
    let raw_price = match own_price {
        Some(p) => p,
        None => match calculate_price(token_id, side, amount, order_type, book) {
            Err(e) => return Err(e),
            Ok(p) => p,
        },
    };
    match check_market_price(raw_price, tick) {
        Err(e) => Err(e),
        Ok(p) => Ok((token_id, side, amount, order_type, p)),
    }
}

impl OrderBuilder<Market> {
    /// Sets the price for this market builder. This is an optional field.
    pub fn price(self, price: Dec) -> (r: Self)
        ensures
            r == (Self { price: Some(price), ..self }),
    {
        Self { price: Some(price), ..self }
    }

    /// Sets the [`Amount`] for this market order. This is a required field.
    pub fn amount(self, amount: Amount) -> (r: Self)
        ensures
            r == (Self { amount: Some(amount), ..self }),
    {
        Self { amount: Some(amount), ..self }
    }

    /// The first checks of a first-version market order.
    fn pre_v1(&self) -> (r: Result<(U256, Side, Amount, OrderType), OrderError>)
        requires
            self.wf(),
        ensures
            r == market_v1_pre(*self),
            r matches Ok((t, s, a, o)) ==> a.wf(),
    {
        let token_id = match self.token_id {
            Some(t) => t,
            None => return Err(OrderError::MissingTokenId),
        };
        let side = match self.side {
            Some(s) => s,
            None => return Err(OrderError::MissingSide),
        };
        let amount = match self.amount {
            Some(a) => a,
            None => return Err(OrderError::MissingAmount),
        };
        let order_type = self.order_type.unwrap_or(OrderType::FAK);
        if self.post_only == Some(true) {
            return Err(OrderError::PostOnlyOnMarketOrder);
        }
        Ok((token_id, side, amount, order_type))
    }

    /// The first checks of a second-version market order.
    fn pre_v2(&self) -> (r: Result<(U256, Side, Amount, OrderType), OrderError>)
        requires
            self.wf(),
        ensures
            r == market_v2_pre(*self),
            r matches Ok((t, s, a, o)) ==> a.wf(),
    {
        let token_id = match self.token_id {
            Some(t) => t,
            None => return Err(OrderError::MissingTokenId),
        };
        let side = match self.side {
            Some(s) => s,
            None => return Err(OrderError::MissingSide),
        };
        let amount = match self.amount {
            Some(a) => a,
            None => return Err(OrderError::MissingAmount),
        };
        let order_type = self.order_type.unwrap_or(OrderType::FAK);
        if !(order_type == OrderType::FOK || order_type == OrderType::FAK) {
            return Err(OrderError::V2MarketOrderTypeNotImmediate);
        }
        if self.post_only == Some(true) {
            return Err(OrderError::PostOnlyOnMarketOrder);
        }
        Ok((token_id, side, amount, order_type))
    }

    /// Validates and transforms this market builder into a [`SignableOrder`],
    /// given the token's order book (walked only when no price is set), its tick
    /// size and fee rate, and a salt drawn by the generator.
    pub fn build(self, book: &OrderBook, tick: TickSize, fee_rate_bps: u64, raw_salt: u64) -> (r:
        Result<SignableOrder, OrderError>)
        requires
            self.wf(),
            book.wf(),
            market_walk_needed_ok(market_v1_pre(self), self.price, *book),
            market_quotient_ok(market_priced(market_v1_pre(self), self.price, *book, tick)),
        ensures
            r == market_order_v1(self, *book, tick, fee_rate_bps, raw_salt),
            r matches Ok(o) ==> market_amounts_exact(
                market_priced(market_v1_pre(self), self.price, *book, tick),
                tick,
                o.order.maker_amount,
                o.order.taker_amount,
                false,
            ),
    {
        let pre = self.pre_v1();
        let (token_id, side, amount, order_type, price) = match price_market_order(
            pre,
            self.price,
            book,
            tick,
        ) {
            Err(e) => return Err(e),
            Ok(x) => x,
        };
        let raw = amount.as_inner();
        let quotient = if side == Side::Buy && matches!(amount.0, AmountInner::Usdc(_)) {
            dec_div(raw, price)
        } else {
            raw
        };
        self.build_priced(token_id, side, amount, order_type, price, tick, fee_rate_bps, raw_salt, quotient)
    }

    /// Finishes a first-version market order once its price is settled (the
    /// builder's own or the book's, truncated to the tick and in range), given
    /// the quotient `amount / price` that a collateral buy takes its shares from.
    pub fn build_priced(
        &self,
        token_id: U256,
        side: Side,
        amount: Amount,
        order_type: OrderType,
        price: Dec,
        tick: TickSize,
        fee_rate_bps: u64,
        raw_salt: u64,
        quotient: Dec,
    ) -> (r: Result<SignableOrder, OrderError>)
        requires
            amount.wf(),
            price.wf(),
            0 < price.mantissa < pow10(price.scale as nat),
            quotient.wf(),
            side == Side::Buy && amount.0 is Usdc ==> !quotient.negative,
        ensures
            r == market_v1_order_priced(
                *self,
                token_id,
                side,
                amount,
                order_type,
                price,
                tick,
                fee_rate_bps,
                raw_salt,
                quotient,
            ),
            r matches Ok(o) ==> market_amounts_exact(
                Ok((token_id, side, amount, order_type, price)),
                tick,
                o.order.maker_amount,
                o.order.taker_amount,
                false,
            ),
    {
        let places = tick.as_decimal().scale();
        let raw = amount.as_inner();
        proof {
            lemma_mul_by_price_in_range(raw, price);
        }
        let (taker_amount, maker_amount) = match side {
            Side::Buy => match amount.0 {
                AmountInner::Usdc(_) => (dec_trunc_with_scale(quotient, places + LOT_SIZE_SCALE), raw),
                AmountInner::Shares(_) => (raw, notional(raw, price, places)),
            },
            Side::Sell => match amount.0 {
                AmountInner::Usdc(_) => return Err(OrderError::SellAmountInUsdc),
                AmountInner::Shares(_) => (notional(raw, price, places), raw),
            },
            Side::Unknown => return Err(OrderError::InvalidSide { side }),
        };
        let salt = to_ieee_754_int(raw_salt);
        let maker_fixed = to_fixed_u128(maker_amount);
        let taker_fixed = to_fixed_u128(taker_amount);
        proof {
            if size_millionths(raw) <= MAX_MANTISSA {
                law_to_fixed_quantizes(raw);
            }
        }
        let order = Order {
            salt,
            maker: self.funder.unwrap_or(self.signer),
            taker: self.taker.unwrap_or(Address::zero()),
            token_id,
            maker_amount: maker_fixed,
            taker_amount: taker_fixed,
            side: side.code(),
            fee_rate_bps,
            nonce: self.nonce.unwrap_or(0),
            signer: self.signer,
            expiration: 0,
            signature_type: self.signature_type.code(),
        };
        Ok(SignableOrder { order, order_type, post_only: None })
    }
}

impl OrderBuilder<Market> {
    /// Build into a V2 signable market order. Produces [`SignableOrderV2`] with:
    ///   - the millisecond timestamp that the clock read
    ///   - `metadata` and `builder` fields from builder state (default zero)
    ///   - `expiration = 0` (market orders fill immediately or cancel)
    ///   - `post_only = false` (market orders are never post-only)
    ///   - `order_type` must be `FOK` or `FAK`; defaults to `FAK`
    pub fn build_v2(self, book: &OrderBook, tick: TickSize, raw_salt: u64, timestamp_ms: i64) -> (r:
        Result<SignableOrderV2, OrderError>)
        requires
            self.wf(),
            book.wf(),
            market_walk_needed_ok(market_v2_pre(self), self.price, *book),
            market_quotient_ok(market_priced(market_v2_pre(self), self.price, *book, tick)),
            market_maker_units_ok(market_priced(market_v2_pre(self), self.price, *book, tick)),
            reads_clock(market_v2_prepared(self, *book, tick) is Ok, self.side, self.signature_type)
                ==> timestamp_ms >= 0,
        ensures
            r == market_order_v2(self, *book, tick, raw_salt, timestamp_ms),
            r matches Ok(o) ==> market_amounts_exact(
                market_priced(market_v2_pre(self), self.price, *book, tick),
                tick,
                o.order.maker_amount,
                o.order.taker_amount,
                true,
            ),
    {
        let pre = self.pre_v2();
        let (token_id, side, amount, order_type, price) = match price_market_order(
            pre,
            self.price,
            book,
            tick,
        ) {
            Err(e) => return Err(e),
            Ok(x) => x,
        };
        let raw = amount.as_inner();
        let quotient = if side == Side::Buy && matches!(amount.0, AmountInner::Usdc(_)) {
            dec_div(raw, price)
        } else {
            raw
        };
        self.build_v2_priced(
            token_id,
            side,
            amount,
            order_type,
            price,
            tick,
            raw_salt,
            timestamp_ms,
            quotient,
        )
    }

    /// Finishes a second-version market order once its price is settled (the
    /// builder's own or the book's, truncated to the tick and in range), given
    /// the quotient `amount / price` that a collateral buy takes its size from:
    /// the size and maker amount, the size check, then assembly.
    pub fn build_v2_priced(
        &self,
        token_id: U256,
        side: Side,
        amount: Amount,
        order_type: OrderType,
        price: Dec,
        tick: TickSize,
        raw_salt: u64,
        timestamp_ms: i64,
        quotient: Dec,
    ) -> (r: Result<SignableOrderV2, OrderError>)
        requires
            amount.wf(),
            price.wf(),
            0 < price.mantissa < pow10(price.scale as nat),
            quotient.wf(),
            side == Side::Buy && amount.0 is Usdc ==> mul_in_range(
                trunc_with_scale_spec(amount.spec_as_inner(), LOT_SIZE_SCALE as nat),
                usdc_unit(),
            ),
            reads_clock(
                market_v2_checked(side, amount, price, tick.places(), quotient) is Ok,
                Some(side),
                self.signature_type,
            ) ==> timestamp_ms >= 0,
        ensures
            r == market_v2_order_priced(
                *self,
                token_id,
                side,
                amount,
                order_type,
                price,
                tick,
                raw_salt,
                timestamp_ms,
                quotient,
            ),
            r matches Ok(o) ==> market_amounts_exact(
                Ok((token_id, side, amount, order_type, price)),
                tick,
                o.order.maker_amount,
                o.order.taker_amount,
                true,
            ),
    {
        let tick_decimal = tick.as_decimal();
        let places = tick_decimal.scale();
        let raw = amount.as_inner();
        let (size, maker_override) = match side {
            Side::Buy => match amount.0 {
                AmountInner::Usdc(_) => {
                    let shares = dec_trunc_with_scale(quotient, places + LOT_SIZE_SCALE);
                    let lot = dec_trunc_with_scale(raw, LOT_SIZE_SCALE);
                    let units = dec_mul(lot, Dec::from_u64(1_000_000));
                    proof {
                        lemma_lot_units(raw, lot, units);
                    }
                    match dec_to_u128(units) {
                        None => return Err(OrderError::MakerAmountOverflow),
                        Some(m) => (shares, Some(m)),
                    }
                },
                AmountInner::Shares(_) => (raw, None),
            },
            Side::Sell => match amount.0 {
                AmountInner::Usdc(_) => return Err(OrderError::SellAmountInUsdc),
                AmountInner::Shares(_) => (raw, None),
            },
            Side::Unknown => return Err(OrderError::InvalidSide { side }),
        };
        if size.is_zero() || size.is_sign_negative() {
            return Err(OrderError::NonPositiveMarketSize { size });
        }
        proof {
            lemma_mul_by_price_in_range(size, price);
        }
        assemble_signable_order_v2(
            token_id,
            side,
            price,
            size,
            tick_decimal,
            order_type,
            false,
            raw_salt,
            timestamp_ms,
            self.funder,
            self.signer,
            self.signature_type,
            self.metadata,
            self.builder_field,
            U256::zero(),
            maker_override,
        )
    }

    /// Build into an [`AnySignableOrder`], dispatching on the builder's configured
    /// `order_version`. V1 produces [`SignableOrder`]; V2 produces [`SignableOrderV2`].
    pub fn build_any(
        self,
        book: &OrderBook,
        tick: TickSize,
        fee_rate_bps: u64,
        raw_salt: u64,
        timestamp_ms: i64,
    ) -> (r: Result<AnySignableOrder, OrderError>)
        requires
            self.wf(),
            book.wf(),
            self.order_version == OrderVersion::V1 ==> market_walk_needed_ok(
                market_v1_pre(self),
                self.price,
                *book,
            ) && market_quotient_ok(market_priced(market_v1_pre(self), self.price, *book, tick)),
            self.order_version == OrderVersion::V2 ==> market_walk_needed_ok(
                market_v2_pre(self),
                self.price,
                *book,
            ) && market_quotient_ok(market_priced(market_v2_pre(self), self.price, *book, tick))
                && market_maker_units_ok(market_priced(market_v2_pre(self), self.price, *book, tick))
                && (reads_clock(
                market_v2_prepared(self, *book, tick) is Ok,
                self.side,
                self.signature_type,
            ) ==> timestamp_ms >= 0),
        ensures
            self.order_version == OrderVersion::V1 ==> r == match market_order_v1(
                self,
                *book,
                tick,
                fee_rate_bps,
                raw_salt,
            ) {
                Ok(o) => Ok(AnySignableOrder::V1(o)),
                Err(e) => Err(e),
            },
            self.order_version == OrderVersion::V2 ==> r == match market_order_v2(
                self,
                *book,
                tick,
                raw_salt,
                timestamp_ms,
            ) {
                Ok(o) => Ok(AnySignableOrder::V2(o)),
                Err(e) => Err(e),
            },
    {
        match self.order_version {
            OrderVersion::V1 => match self.build(book, tick, fee_rate_bps, raw_salt) {
                Ok(o) => Ok(AnySignableOrder::V1(o)),
                Err(e) => Err(e),
            },
            OrderVersion::V2 => match self.build_v2(book, tick, raw_salt, timestamp_ms) {
                Ok(o) => Ok(AnySignableOrder::V2(o)),
                Err(e) => Err(e),
            },
        }
    }
}

/// The checks of a market order that come before anything is fetched, for
/// the version of the build that is run; the token to fetch for and whether
/// its order book is needed (it is when the order has no price).
pub open spec fn market_prefetch(b: OrderBuilder<Market>, version: OrderVersion) -> Result<
    (U256, bool),
    OrderError,
> {
    let pre = if version == OrderVersion::V1 {
        market_v1_pre(b)
    } else {
        market_v2_pre(b)
    };
    match pre {
        Ok((token_id, side, amount, order_type)) => Ok((token_id, b.price is None)),
        Err(e) => Err(e),
    }
}

impl OrderBuilder<Market> {
    /// Runs the checks that precede fetching the token's order book, tick size
    /// and fee rate, for the build of `version` that is to be run (`build` for
    /// V1, `build_v2` for V2, the builder's own version for `build_any`);
    /// gives the token and whether the book is needed.
    pub fn check_before_fetch(&self, version: OrderVersion) -> (r: Result<(U256, bool), OrderError>)
        requires
            self.wf(),
        ensures
            r == market_prefetch(*self, version),
    {
        let pre = match version {
            OrderVersion::V1 => self.pre_v1(),
            OrderVersion::V2 => self.pre_v2(),
        };
        match pre {
            Ok((token_id, side, amount, order_type)) => Ok((token_id, self.price.is_none())),
            Err(e) => Err(e),
        }
    }
}

/// Whether the walk over `levels` for `target` stays within `Decimal::MAX`:
/// it walks the levels as `calculate_price` does, testing each product and
/// sum before making it.
pub fn walk_fits(levels: &Vec<BookLevel>, in_usdc: bool, target: Dec) -> (r: bool)
    requires
        levels_wf(levels@),
        target.wf(),
    ensures
        r == walk_in_range(levels@, in_usdc, target, Dec::spec_zero()),
{
    let ghost all = levels@;
    let mut i: usize = levels.len();
    let mut sum = Dec::zero();
    proof {
        assert(all.subrange(0, all.len() as int) =~= all);
    }
    while i > 0
        invariant
            all == levels@,
            levels_wf(all),
            i <= all.len(),
            sum.wf(),
            target.wf(),
            walk_in_range(all.subrange(0, i as int), in_usdc, target, sum) == walk_in_range(
                all,
                in_usdc,
                target,
                Dec::spec_zero(),
            ),
        decreases i,
    {
        let level = levels[i - 1];
        let ghost prefix = all.subrange(0, i as int);
        proof {
            assert(prefix.last() == level);
            assert(prefix.drop_last() =~= all.subrange(0, i - 1));
        }
        if in_usdc && !fits_mul(level.size, level.price) {
            return false;
        }
        let c = if in_usdc {
            dec_mul(level.size, level.price)
        } else {
            level.size
        };
        if !fits_add(sum, c) {
            return false;
        }
        sum = dec_add(sum, c);
        if !dec_lt(sum, target) {
            return true;
        }
        i -= 1;
    }
    proof {
        assert(all.subrange(0, 0) =~= Seq::<BookLevel>::empty());
    }
    true
}

/// Tests `market_walk_needed_ok`: walks the book when the order has no price.
fn walk_needed_fits(
    pre: Result<(U256, Side, Amount, OrderType), OrderError>,
    own_price: Option<Dec>,
    book: &OrderBook,
) -> (r: bool)
    requires
        pre matches Ok((token_id, side, amount, order_type)) ==> amount.wf(),
        book.wf(),
    ensures
        r == market_walk_needed_ok(pre, own_price, *book),
{
    match pre {
        Err(_) => true,
        Ok((token_id, side, amount, order_type)) => {
            if own_price.is_some() {
                return true;
            }
            if !(order_type == OrderType::FOK || order_type == OrderType::FAK) {
                return true;
            }
            match side {
                Side::Buy => walk_fits(
                    &book.asks,
                    matches!(amount.0, AmountInner::Usdc(_)),
                    amount.as_inner(),
                ),
                Side::Sell => match amount.0 {
                    AmountInner::Shares(_) => walk_fits(&book.bids, false, amount.as_inner()),
                    AmountInner::Usdc(_) => true,
                },
                Side::Unknown => true,
            }
        },
    }
}

/// Tests `market_quotient_ok` on a priced market order.
fn quotient_fits(priced: Result<(U256, Side, Amount, OrderType, Dec), OrderError>) -> (r: bool)
    requires
        priced matches Ok((token_id, side, amount, order_type, p)) ==> amount.wf() && p.wf()
            && p.mantissa != 0,
    ensures
        r == market_quotient_ok(priced),
{
    match priced {
        Err(_) => true,
        Ok((token_id, side, amount, order_type, price)) => {
            if side == Side::Buy && matches!(amount.0, AmountInner::Usdc(_)) {
                fits_div(amount.as_inner(), price)
            } else {
                true
            }
        },
    }
}

/// Tests `market_maker_units_ok` on a priced market order.
fn maker_units_fit(priced: Result<(U256, Side, Amount, OrderType, Dec), OrderError>) -> (r: bool)
    requires
        priced matches Ok((token_id, side, amount, order_type, p)) ==> amount.wf(),
    ensures
        r == market_maker_units_ok(priced),
{
    match priced {
        Err(_) => true,
        Ok((token_id, side, amount, order_type, price)) => {
            if side == Side::Buy && matches!(amount.0, AmountInner::Usdc(_)) {
                let t = dec_trunc_with_scale(amount.as_inner(), LOT_SIZE_SCALE);
                fits_mul(t, Dec::from_u64(1_000_000))
            } else {
                true
            }
        },
    }
}

/// Every decimal operation of a first-version market build stays within
/// `Decimal::MAX`: the walk over the book and the quotient of a collateral buy.
pub open spec fn market_v1_fits(b: OrderBuilder<Market>, book: OrderBook, tick: TickSize) -> bool {
    &&& market_walk_needed_ok(market_v1_pre(b), b.price, book)
    &&& market_quotient_ok(market_priced(market_v1_pre(b), b.price, book, tick))
}

/// Every decimal operation of a second-version market build stays within
/// `Decimal::MAX`: the walk, the quotient and the maker amount in base units.
pub open spec fn market_v2_fits(b: OrderBuilder<Market>, book: OrderBook, tick: TickSize) -> bool {
    &&& market_walk_needed_ok(market_v2_pre(b), b.price, book)
    &&& market_quotient_ok(market_priced(market_v2_pre(b), b.price, book, tick))
    &&& market_maker_units_ok(market_priced(market_v2_pre(b), b.price, book, tick))
}

impl OrderBuilder<Market> {
    /// Builds a first-version market order when none of its decimal operations
    /// overflows, and gives `None` when one would (where `build` may not be called).
    pub fn try_build(self, book: &OrderBook, tick: TickSize, fee_rate_bps: u64, raw_salt: u64) -> (r:
        Option<Result<SignableOrder, OrderError>>)
        requires
            self.wf(),
            book.wf(),
        ensures
            r is None <==> !market_v1_fits(self, *book, tick),
            r matches Some(x) ==> x == market_order_v1(self, *book, tick, fee_rate_bps, raw_salt),
    {
        let pre = self.pre_v1();
        if !walk_needed_fits(pre, self.price, book) {
            return None;
        }
        let priced = price_market_order(pre, self.price, book, tick);
        if !quotient_fits(priced) {
            return None;
        }
        Some(self.build(book, tick, fee_rate_bps, raw_salt))
    }

    /// Builds a second-version market order when none of its decimal operations
    /// overflows, and gives `None` when one would (where `build_v2` may not be
    /// called).  `timestamp_ms` is the millisecond clock, after the epoch.
    pub fn try_build_v2(self, book: &OrderBook, tick: TickSize, raw_salt: u64, timestamp_ms: i64) -> (r:
        Option<Result<SignableOrderV2, OrderError>>)
        requires
            self.wf(),
            book.wf(),
            timestamp_ms >= 0,
        ensures
            r is None <==> !market_v2_fits(self, *book, tick),
            r matches Some(x) ==> x == market_order_v2(self, *book, tick, raw_salt, timestamp_ms),
    {
        let pre = self.pre_v2();
        if !walk_needed_fits(pre, self.price, book) {
            return None;
        }
        let priced = price_market_order(pre, self.price, book, tick);
        if !quotient_fits(priced) {
            return None;
        }
        if !maker_units_fit(priced) {
            return None;
        }
        Some(self.build_v2(book, tick, raw_salt, timestamp_ms))
    }

    /// Builds a market order of the builder's version when none of its decimal
    /// operations overflows; `None` when one would.
    pub fn try_build_any(
        self,
        book: &OrderBook,
        tick: TickSize,
        fee_rate_bps: u64,
        raw_salt: u64,
        timestamp_ms: i64,
    ) -> (r: Option<Result<AnySignableOrder, OrderError>>)
        requires
            self.wf(),
            book.wf(),
            timestamp_ms >= 0,
        ensures
            self.order_version == OrderVersion::V1 ==> (r is None <==> !market_v1_fits(self, *book, tick)),
            self.order_version == OrderVersion::V2 ==> (r is None <==> !market_v2_fits(self, *book, tick)),
            r matches Some(x) ==> x == (match self.order_version {
                OrderVersion::V1 => match market_order_v1(self, *book, tick, fee_rate_bps, raw_salt) {
                    Ok(o) => Ok(AnySignableOrder::V1(o)),
                    Err(e) => Err(e),
                },
                OrderVersion::V2 => match market_order_v2(self, *book, tick, raw_salt, timestamp_ms) {
                    Ok(o) => Ok(AnySignableOrder::V2(o)),
                    Err(e) => Err(e),
                },
            }),
    {
        match self.order_version {
            OrderVersion::V1 => match self.try_build(book, tick, fee_rate_bps, raw_salt) {
                None => None,
                Some(Ok(o)) => Some(Ok(AnySignableOrder::V1(o))),
                Some(Err(e)) => Some(Err(e)),
            },
            OrderVersion::V2 => match self.try_build_v2(book, tick, raw_salt, timestamp_ms) {
                None => None,
                Some(Ok(o)) => Some(Ok(AnySignableOrder::V2(o))),
                Some(Err(e)) => Some(Err(e)),
            },
        }
    }
}

} // verus!
