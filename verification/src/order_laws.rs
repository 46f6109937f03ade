//! Properties that span the order builders: what every built order satisfies,
//! how buy and sell orders and the two order versions relate, and what the
//! checks made before fetching decide.
use crate::decimal::{decimal_add, decimal_mul, dec_lt_spec, Dec};
use crate::market_order::{
    cutoff_walk, level_contribution, market_order_v1, market_order_v2, market_prefetch,
    market_price, walked_levels,
};
use crate::order_builder::{
    assembled_order_v2, limit_order_v1, limit_order_v2, limit_prefetch, notional_spec, price_in_range,
    salt_bound, to_fixed_spec, Limit, Market, OrderBuilder, LOT_SIZE_SCALE,
};
use crate::types::{
    Address, Amount, BookLevel, OrderBook, OrderError, OrderType, OrderVersion, SignableOrder,
    SignableOrderV2, Side, SignatureType, TickSize, B256, U256,
};
use vstd::prelude::*;

verus! {

/// A limit order is only built from a price with no more places than the tick,
/// between the tick and one minus the tick, and a positive size with at most
/// two places; a first-version order has a non-zero expiration only when it is
/// good-till-date, is post-only only when it rests on the book, and always has
/// a salt below 2^53 and the funder (or else the signer) as maker.
pub proof fn law_limit_order_validity(b: OrderBuilder<Limit>, fee_rate_bps: u64, tick: TickSize, raw_salt: u64)
    requires
        b.wf(),
    ensures
        limit_order_v1(b, fee_rate_bps, tick, raw_salt) matches Ok(o) ==> {
            &&& b.price->0.scale <= tick.places()
            &&& price_in_range(b.price->0, tick)
            &&& b.size->0.scale <= LOT_SIZE_SCALE
            &&& b.size->0.mantissa > 0
            &&& (o.order_type == OrderType::GTD || o.order.expiration == 0)
            &&& (o.post_only == Some(true) ==> o.order_type.is_resting())
            &&& o.order.salt < salt_bound()
            &&& o.order.maker == b.funder.unwrap_or(b.signer)
            &&& o.order.token_id == b.token_id->0
        },
{
}

/// A buy and a sell limit order built from the same fields mirror each other:
/// the maker amount of one is the taker amount of the other.
pub proof fn law_limit_buy_sell_mirror(b: OrderBuilder<Limit>, fee_rate_bps: u64, tick: TickSize, raw_salt: u64)
    requires
        b.wf(),
    ensures
        limit_order_v1(OrderBuilder { side: Some(Side::Buy), ..b }, fee_rate_bps, tick, raw_salt) matches Ok(
            buy,
        ) ==> limit_order_v1(OrderBuilder { side: Some(Side::Sell), ..b }, fee_rate_bps, tick, raw_salt)
            matches Ok(sell) && buy.order.maker_amount == sell.order.taker_amount
            && buy.order.taker_amount == sell.order.maker_amount && buy.order.side == 0
            && sell.order.side == 1,
{
}

/// The second-version limit build computes the same amounts, salt, parties and
/// codes as the first-version one: whenever the first succeeds and the
/// signature type is supported, the second succeeds too and agrees with it.
pub proof fn law_limit_versions_agree(
    b: OrderBuilder<Limit>,
    fee_rate_bps: u64,
    tick: TickSize,
    raw_salt: u64,
    timestamp_ms: i64,
)
    requires
        b.wf(),
    ensures
        b.signature_type != SignatureType::Poly1271 ==> (limit_order_v1(b, fee_rate_bps, tick, raw_salt) matches Ok(
            v1,
        ) ==> limit_order_v2(b, tick, raw_salt, timestamp_ms) matches Ok(v2)
            && v2.order.maker_amount == v1.order.maker_amount && v2.order.taker_amount
            == v1.order.taker_amount && v2.order.salt == v1.order.salt && v2.order.maker
            == v1.order.maker && v2.order.signer == v1.order.signer && v2.order.token_id
            == v1.order.token_id && v2.order.side == v1.order.side && v2.order.signature_type
            == v1.order.signature_type && v2.order_type == v1.order_type && v2.post_only
            == v1.post_only),
{
}

/// Second-version assembly refuses smart-contract signatures; otherwise it
/// carries the expiration, timestamp, post-only flag, metadata and builder words
/// through unchanged, keeps salts below 2^53, uses a buy's maker amount when one
/// is given, and never overrides a sell's maker amount (its size).  The amounts
/// are the size and the notional (size times price, truncated to the tick's
/// places plus two), each quantized to millionths: a buy takes the size and
/// gives the notional, a sell the reverse.
pub proof fn law_assembly(
    token_id: U256,
    side: Side,
    price: Dec,
    size: Dec,
    minimum_tick_size: Dec,
    order_type: OrderType,
    post_only: bool,
    raw_salt: u64,
    timestamp_ms: i64,
    funder: Option<Address>,
    signer: Address,
    signature_type: SignatureType,
    metadata: B256,
    builder_field: B256,
    expiration: U256,
    maker_amount_override: Option<u128>,
)
    ensures
        ({
            let r = assembled_order_v2(
                token_id,
                side,
                price,
                size,
                minimum_tick_size,
                order_type,
                post_only,
                raw_salt,
                timestamp_ms,
                funder,
                signer,
                signature_type,
                metadata,
                builder_field,
                expiration,
                maker_amount_override,
            );
            &&& signature_type == SignatureType::Poly1271 ==> r == Err::<SignableOrderV2, OrderError>(
                OrderError::SignatureTypeNotImplemented,
            )
            &&& side == Side::Unknown && signature_type != SignatureType::Poly1271 ==> r is Err
            &&& r matches Ok(o) ==> {
                &&& o.expiration == expiration
                &&& (timestamp_ms >= 0 ==> o.order.timestamp.value() == timestamp_ms)
                &&& o.post_only == Some(post_only)
                &&& o.order_type == order_type
                &&& o.order.metadata == metadata
                &&& o.order.builder == builder_field
                &&& o.order.salt < salt_bound()
                &&& o.order.maker == funder.unwrap_or(signer)
                &&& (side == Side::Buy && maker_amount_override is Some ==> o.order.maker_amount
                    == maker_amount_override->0)
                &&& (side == Side::Sell ==> o.order.maker_amount == to_fixed_spec(size))
                &&& (side == Side::Buy ==> o.order.taker_amount == to_fixed_spec(size))
                &&& (side == Side::Buy && maker_amount_override is None ==> o.order.maker_amount
                    == to_fixed_spec(notional_spec(size, price, minimum_tick_size.scale as nat)))
                &&& (side == Side::Sell ==> o.order.taker_amount == to_fixed_spec(
                    notional_spec(size, price, minimum_tick_size.scale as nat),
                ))
            }
        }),
{
}

/// A market order is never post-only: asking for it is refused by both
/// builds; a first-version market order has no expiration and no post-only
/// flag, and a second-version one is fill-or-kill or fill-and-kill, not
/// post-only and without expiration.
pub proof fn law_market_orders_are_immediate(
    b: OrderBuilder<Market>,
    book: OrderBook,
    tick: TickSize,
    fee_rate_bps: u64,
    raw_salt: u64,
    timestamp_ms: i64,
)
    ensures
        b.post_only == Some(true) ==> market_order_v1(b, book, tick, fee_rate_bps, raw_salt) is Err,
        b.post_only == Some(true) ==> market_order_v2(b, book, tick, raw_salt, timestamp_ms) is Err,
        market_order_v1(b, book, tick, fee_rate_bps, raw_salt) matches Ok(o) ==> o.order.expiration
            == 0 && o.post_only is None && o.order.salt < salt_bound(),
        market_order_v2(b, book, tick, raw_salt, timestamp_ms) matches Ok(o) ==> o.order_type.is_immediate()
            && o.post_only == Some(false) && o.expiration == U256::spec_from_u64(0) && o.order.salt
            < salt_bound(),
{
}

/// The walk stops at one of the levels it walks.
proof fn lemma_cutoff_is_a_level(levels: Seq<BookLevel>, in_usdc: bool, target: Dec, sum: Dec)
    ensures
        cutoff_walk(levels, in_usdc, target, sum) matches Some(p) ==> exists|i: int|
            0 <= i < levels.len() && (#[trigger] levels[i]).price == p,
    decreases levels.len(),
{
    if levels.len() > 0 {
        let next = decimal_add(sum, level_contribution(levels.last(), in_usdc));
        if !dec_lt_spec(next, target) {
            assert(levels[levels.len() - 1].price == levels.last().price);
        } else {
            lemma_cutoff_is_a_level(levels.drop_last(), in_usdc, target, next);
            if cutoff_walk(levels, in_usdc, target, sum) is Some {
                let p = cutoff_walk(levels, in_usdc, target, sum)->0;
                let i = choose|i: int| 0 <= i < levels.drop_last().len() && (#[trigger] levels.drop_last()[i]).price == p;
                assert(levels[i] == levels.drop_last()[i]);
            }
        }
    }
}

/// The market price of an order without one is the price of a level on the
/// opposing side of the book: the asks for a buy, the bids for a sell.
pub proof fn law_market_price_is_on_the_book(
    token_id: U256,
    side: Side,
    amount: Amount,
    order_type: OrderType,
    book: OrderBook,
)
    ensures
        market_price(token_id, side, amount, order_type, book) matches Ok(p) ==> {
            &&& side == Side::Buy ==> exists|i: int| 0 <= i < book.asks@.len() && (#[trigger] book.asks@[i]).price == p
            &&& side == Side::Sell ==> exists|i: int| 0 <= i < book.bids@.len() && (#[trigger] book.bids@[i]).price == p
            &&& side != Side::Unknown
            &&& order_type.is_immediate()
        },
        order_type == OrderType::FOK ==> (walked_levels(side, amount, book) matches Ok((levels, in_usdc))
            ==> levels.len() > 0 && cutoff_walk(levels, in_usdc, amount.spec_as_inner(), Dec::spec_zero()) is None
            ==> market_price(token_id, side, amount, order_type, book) == Err::<Dec, OrderError>(
            OrderError::InsufficientLiquidity { token_id, amount: amount.spec_as_inner() },
        )),
{
    if let Ok((levels, in_usdc)) = walked_levels(side, amount, book) {
        lemma_cutoff_is_a_level(levels, in_usdc, amount.spec_as_inner(), Dec::spec_zero());
    }
}

/// A limit order refused before anything is fetched is refused with the same
/// error whatever is fetched; one that passes is built for the token it names.
pub proof fn law_limit_prefetch_is_final(
    b: OrderBuilder<Limit>,
    fee_rate_bps: u64,
    tick: TickSize,
    raw_salt: u64,
    timestamp_ms: i64,
)
    ensures
        limit_prefetch(b) is Err ==> limit_order_v1(b, fee_rate_bps, tick, raw_salt) == Err::<
            SignableOrder,
            OrderError,
        >(limit_prefetch(b)->Err_0) && limit_order_v2(b, tick, raw_salt, timestamp_ms) == Err::<
            SignableOrderV2,
            OrderError,
        >(limit_prefetch(b)->Err_0),
        limit_order_v1(b, fee_rate_bps, tick, raw_salt) matches Ok(o) ==> limit_prefetch(b) == Ok::<
            U256,
            OrderError,
        >(o.order.token_id),
{
}

/// A market order refused before anything is fetched is refused by the build
/// of that version with the same error, whatever is fetched; and the build
/// that `build_any` runs is the one of the builder's own version.
pub proof fn law_market_prefetch_is_final(
    b: OrderBuilder<Market>,
    book: OrderBook,
    tick: TickSize,
    fee_rate_bps: u64,
    raw_salt: u64,
    timestamp_ms: i64,
)
    ensures
        market_prefetch(b, OrderVersion::V1) is Err ==> market_order_v1(
            b,
            book,
            tick,
            fee_rate_bps,
            raw_salt,
        ) == Err::<SignableOrder, OrderError>(market_prefetch(b, OrderVersion::V1)->Err_0),
        market_prefetch(b, OrderVersion::V2) is Err ==> market_order_v2(
            b,
            book,
            tick,
            raw_salt,
            timestamp_ms,
        ) == Err::<SignableOrderV2, OrderError>(market_prefetch(b, OrderVersion::V2)->Err_0),
        market_order_v1(b, book, tick, fee_rate_bps, raw_salt) matches Ok(o) ==> market_prefetch(
            b,
            OrderVersion::V1,
        ) == Ok::<(U256, bool), OrderError>((o.order.token_id, b.price is None)),
        market_order_v2(b, book, tick, raw_salt, timestamp_ms) matches Ok(o) ==> market_prefetch(
            b,
            OrderVersion::V2,
        ) == Ok::<(U256, bool), OrderError>((o.order.token_id, b.price is None)),
{
}

/// The good-till-date rule on expirations binds first-version orders only: a
/// second-version limit order is never refused for it, and carries any
/// expiration from the epoch on as its seconds.
pub proof fn law_v2_limit_orders_skip_the_gtd_rule(
    b: OrderBuilder<Limit>,
    tick: TickSize,
    raw_salt: u64,
    timestamp_ms: i64,
)
    ensures
        limit_order_v2(b, tick, raw_salt, timestamp_ms) != Err::<SignableOrderV2, OrderError>(
            OrderError::ExpirationRequiresGtd,
        ),
        limit_order_v2(b, tick, raw_salt, timestamp_ms) matches Ok(o) ==> o.expiration == (match b.expiration {
            None => U256::spec_from_u64(0),
            Some(t) => U256::spec_from_u64(t.secs as u64),
        }),
{
}

/// The depth of the first `n` levels of a side of the book, counting from the
/// best (the last level): the sum of their notionals `size * price` when
/// `notional`, else of their sizes, added from the best level down.
pub open spec fn depth_total(levels: Seq<BookLevel>, notional: bool, n: nat) -> Dec
    decreases n,
{
    if n == 0 {
        Dec::spec_zero()
    } else {
        let l = levels[levels.len() - n];
        decimal_add(
            depth_total(levels, notional, (n - 1) as nat),
            if notional {
                decimal_mul(l.size, l.price)
            } else {
                l.size
            },
        )
    }
}

/// The price of the `k`-th best level or of a later one: the first, counting
/// from the best, whose depth total covers `target`; `None` when none does.
pub open spec fn first_cover(levels: Seq<BookLevel>, notional: bool, target: Dec, k: nat) -> Option<Dec>
    decreases levels.len() + 1 - k,
{
    if k == 0 || k > levels.len() {
        None
    } else if !dec_lt_spec(depth_total(levels, notional, k), target) {
        Some(levels[levels.len() - k].price)
    } else {
        first_cover(levels, notional, target, k + 1)
    }
}

/// Walking the levels below the `m` best ones, with their depth already
/// counted, finds the first covering level after them.
proof fn lemma_walk_is_first_cover(levels: Seq<BookLevel>, notional: bool, target: Dec, m: nat)
    requires
        m <= levels.len(),
    ensures
        cutoff_walk(
            levels.subrange(0, levels.len() - m),
            notional,
            target,
            depth_total(levels, notional, m),
        ) == first_cover(levels, notional, target, m + 1),
    decreases levels.len() - m,
{
    let p = levels.subrange(0, levels.len() - m);
    if m < levels.len() {
        lemma_walk_is_first_cover(levels, notional, target, m + 1);
        assert(p.last() == levels[levels.len() - (m + 1)]);
        assert(p.drop_last() =~= levels.subrange(0, levels.len() - (m + 1)));
        assert(depth_total(levels, notional, m + 1) == decimal_add(
            depth_total(levels, notional, m),
            level_contribution(levels[levels.len() - (m + 1)], notional),
        ));
    }
}

/// The market price of an immediate order is found by depth: for a buy, the
/// price of the first ask, from the best, at which the cumulative notional of
/// the asks (for a collateral amount) or their cumulative size (for shares)
/// reaches the amount; for a share sell, the same over the bids' sizes. When
/// the whole side falls short, a fill-or-kill order is refused and a
/// fill-and-kill one takes the first level's price. A collateral sell, an
/// empty side and a resting order type are refused.
pub proof fn law_market_price_is_the_covering_level(
    token_id: U256,
    side: Side,
    amount: Amount,
    order_type: OrderType,
    book: OrderBook,
)
    ensures
        ({
            let target = amount.spec_as_inner();
            let short = if order_type == OrderType::FOK {
                Err(OrderError::InsufficientLiquidity { token_id, amount: target })
            } else {
                Ok(book.asks@[0].price)
            };
            (order_type == OrderType::FOK || order_type == OrderType::FAK) && side == Side::Buy
                && book.asks@.len() > 0 ==> market_price(token_id, side, amount, order_type, book)
                == match first_cover(book.asks@, amount.0 is Usdc, target, 1) {
                Some(p) => Ok(p),
                None => short,
            }
        }),
        ({
            let target = amount.spec_as_inner();
            let short = if order_type == OrderType::FOK {
                Err(OrderError::InsufficientLiquidity { token_id, amount: target })
            } else {
                Ok(book.bids@[0].price)
            };
            (order_type == OrderType::FOK || order_type == OrderType::FAK) && side == Side::Sell
                && amount.0 is Shares && book.bids@.len() > 0 ==> market_price(
                token_id,
                side,
                amount,
                order_type,
                book,
            ) == match first_cover(book.bids@, false, target, 1) {
                Some(p) => Ok(p),
                None => short,
            }
        }),
        (order_type == OrderType::FOK || order_type == OrderType::FAK) && side == Side::Sell
            && amount.0 is Usdc ==> market_price(token_id, side, amount, order_type, book) == Err::<
            Dec,
            OrderError,
        >(OrderError::SellAmountInUsdc),
        (order_type == OrderType::FOK || order_type == OrderType::FAK) && side == Side::Buy
            && book.asks@.len() == 0 ==> market_price(token_id, side, amount, order_type, book) == Err::<
            Dec,
            OrderError,
        >(OrderError::NoOpposingOrders { token_id }),
        order_type == OrderType::GTC || order_type == OrderType::GTD ==> market_price(
            token_id,
            side,
            amount,
            order_type,
            book,
        ) == Err::<Dec, OrderError>(OrderError::MarketOrderTypeNotImmediate),
{
    let asks = book.asks@;
    let bids = book.bids@;
    lemma_walk_is_first_cover(asks, amount.0 is Usdc, amount.spec_as_inner(), 0);
    lemma_walk_is_first_cover(bids, false, amount.spec_as_inner(), 0);
    assert(asks.subrange(0, asks.len() as int) =~= asks);
    assert(bids.subrange(0, bids.len() as int) =~= bids);
}

/// The on-chain codes: a buy is 0 and a sell 1; the signature types are 0 to 3
/// in the order EOA, proxy, Gnosis safe, EIP-1271.
pub proof fn law_protocol_codes()
    ensures
        Side::Buy.spec_code() == 0,
        Side::Sell.spec_code() == 1,
        SignatureType::Eoa.spec_code() == 0,
        SignatureType::Proxy.spec_code() == 1,
        SignatureType::GnosisSafe.spec_code() == 2,
        SignatureType::Poly1271.spec_code() == 3,
{
}

/// Every order is signed for the builder's side, token and signer, on behalf of
/// the funder (or else the signer), with the builder's signature type; a
/// first-version order also carries the fee rate, the nonce and the taker
/// (zero when unset).  A buy is encoded 0 and a sell 1.
pub proof fn law_orders_carry_the_builder_fields(
    l: OrderBuilder<Limit>,
    m: OrderBuilder<Market>,
    book: OrderBook,
    tick: TickSize,
    fee_rate_bps: u64,
    raw_salt: u64,
    timestamp_ms: i64,
)
    ensures
        limit_order_v1(l, fee_rate_bps, tick, raw_salt) matches Ok(o) ==> {
            &&& (l.side == Some(Side::Buy) ==> o.order.side == 0)
            &&& (l.side == Some(Side::Sell) ==> o.order.side == 1)
            &&& (l.side == Some(Side::Buy) || l.side == Some(Side::Sell))
            &&& o.order.maker == l.funder.unwrap_or(l.signer)
            &&& o.order.signer == l.signer
            &&& l.token_id == Some(o.order.token_id)
            &&& o.order.fee_rate_bps == fee_rate_bps
            &&& o.order.nonce == l.nonce.unwrap_or(0)
            &&& o.order.taker == l.taker.unwrap_or(Address::spec_zero())
            &&& o.order.signature_type == l.signature_type.spec_code()
        },
        limit_order_v2(l, tick, raw_salt, timestamp_ms) matches Ok(o) ==> {
            &&& (l.side == Some(Side::Buy) ==> o.order.side == 0)
            &&& (l.side == Some(Side::Sell) ==> o.order.side == 1)
            &&& (l.side == Some(Side::Buy) || l.side == Some(Side::Sell))
            &&& o.order.maker == l.funder.unwrap_or(l.signer)
            &&& o.order.signer == l.signer
            &&& l.token_id == Some(o.order.token_id)
            &&& o.order.signature_type == l.signature_type.spec_code()
            &&& o.order.metadata == l.metadata
            &&& o.order.builder == l.builder_field
        },
        market_order_v1(m, book, tick, fee_rate_bps, raw_salt) matches Ok(o) ==> {
            &&& (m.side == Some(Side::Buy) ==> o.order.side == 0)
            &&& (m.side == Some(Side::Sell) ==> o.order.side == 1)
            &&& (m.side == Some(Side::Buy) || m.side == Some(Side::Sell))
            &&& o.order.maker == m.funder.unwrap_or(m.signer)
            &&& o.order.signer == m.signer
            &&& m.token_id == Some(o.order.token_id)
            &&& o.order.fee_rate_bps == fee_rate_bps
            &&& o.order.nonce == m.nonce.unwrap_or(0)
            &&& o.order.taker == m.taker.unwrap_or(Address::spec_zero())
            &&& o.order.signature_type == m.signature_type.spec_code()
        },
        market_order_v2(m, book, tick, raw_salt, timestamp_ms) matches Ok(o) ==> {
            &&& (m.side == Some(Side::Buy) ==> o.order.side == 0)
            &&& (m.side == Some(Side::Sell) ==> o.order.side == 1)
            &&& (m.side == Some(Side::Buy) || m.side == Some(Side::Sell))
            &&& o.order.maker == m.funder.unwrap_or(m.signer)
            &&& o.order.signer == m.signer
            &&& m.token_id == Some(o.order.token_id)
            &&& o.order.signature_type == m.signature_type.spec_code()
            &&& o.order.metadata == m.metadata
            &&& o.order.builder == m.builder_field
        },
{
}

/// A market order whose type is unset is fill-and-kill: when built it has that
/// type, it is never refused for its type, and a book too thin to fill it
/// prices it at the first level instead of refusing it.
pub proof fn law_market_orders_default_to_fill_and_kill(
    b: OrderBuilder<Market>,
    book: OrderBook,
    tick: TickSize,
    fee_rate_bps: u64,
    raw_salt: u64,
    timestamp_ms: i64,
)
    requires
        b.order_type is None,
    ensures
        market_order_v1(b, book, tick, fee_rate_bps, raw_salt) matches Ok(o) ==> o.order_type
            == OrderType::FAK,
        market_order_v2(b, book, tick, raw_salt, timestamp_ms) matches Ok(o) ==> o.order_type
            == OrderType::FAK,
        !(market_order_v1(b, book, tick, fee_rate_bps, raw_salt) matches Err(
            OrderError::InsufficientLiquidity { .. },
        )),
        !(market_order_v2(b, book, tick, raw_salt, timestamp_ms) matches Err(
            OrderError::InsufficientLiquidity { .. },
        )),
        market_order_v1(b, book, tick, fee_rate_bps, raw_salt) != Err::<SignableOrder, OrderError>(
            OrderError::MarketOrderTypeNotImmediate,
        ),
        market_order_v2(b, book, tick, raw_salt, timestamp_ms) != Err::<SignableOrderV2, OrderError>(
            OrderError::V2MarketOrderTypeNotImmediate,
        ),
{
}

/// Post-only changes nothing of a resting limit order but its flag: a
/// good-till-cancelled (the default) or good-till-date order built post-only
/// succeeds or fails exactly as the same order without it, with the same
/// order and type.  An immediate order that would be built is refused when
/// post-only.
pub proof fn law_post_only_only_marks_resting_orders(
    b: OrderBuilder<Limit>,
    fee_rate_bps: u64,
    tick: TickSize,
    raw_salt: u64,
    timestamp_ms: i64,
)
    ensures
        ({
            let on = OrderBuilder { post_only: Some(true), ..b };
            let off = OrderBuilder { post_only: Some(false), ..b };
            (b.order_type is None || b.order_type == Some(OrderType::GTC) || b.order_type == Some(
                OrderType::GTD,
            )) ==> {
                &&& (limit_order_v1(on, fee_rate_bps, tick, raw_salt) is Ok) == (limit_order_v1(
                    off,
                    fee_rate_bps,
                    tick,
                    raw_salt,
                ) is Ok)
                &&& (limit_order_v1(on, fee_rate_bps, tick, raw_salt) matches Err(e) ==> limit_order_v1(
                    off,
                    fee_rate_bps,
                    tick,
                    raw_salt,
                ) == Err::<SignableOrder, OrderError>(e))
                &&& (limit_order_v1(on, fee_rate_bps, tick, raw_salt) matches Ok(x) ==> (limit_order_v1(
                    off,
                    fee_rate_bps,
                    tick,
                    raw_salt,
                ) matches Ok(y) && x.order == y.order && x.order_type == y.order_type && x.post_only
                    == Some(true) && y.post_only == Some(false)))
                &&& (limit_order_v2(on, tick, raw_salt, timestamp_ms) is Ok) == (limit_order_v2(
                    off,
                    tick,
                    raw_salt,
                    timestamp_ms,
                ) is Ok)
                &&& (limit_order_v2(on, tick, raw_salt, timestamp_ms) matches Err(e) ==> limit_order_v2(
                    off,
                    tick,
                    raw_salt,
                    timestamp_ms,
                ) == Err::<SignableOrderV2, OrderError>(e))
                &&& (limit_order_v2(on, tick, raw_salt, timestamp_ms) matches Ok(x) ==> (limit_order_v2(
                    off,
                    tick,
                    raw_salt,
                    timestamp_ms,
                ) matches Ok(y) && x.order == y.order && x.order_type == y.order_type && x.post_only
                    == Some(true) && y.post_only == Some(false)))
            }
        }),
        ({
            let on = OrderBuilder { post_only: Some(true), ..b };
            let off = OrderBuilder { post_only: Some(false), ..b };
            (b.order_type == Some(OrderType::FOK) || b.order_type == Some(OrderType::FAK)) ==> {
                &&& (limit_order_v1(off, fee_rate_bps, tick, raw_salt) is Ok ==> limit_order_v1(
                    on,
                    fee_rate_bps,
                    tick,
                    raw_salt,
                ) == Err::<SignableOrder, OrderError>(OrderError::PostOnlyRequiresResting))
                &&& (limit_order_v2(off, tick, raw_salt, timestamp_ms) is Ok ==> limit_order_v2(
                    on,
                    tick,
                    raw_salt,
                    timestamp_ms,
                ) == Err::<SignableOrderV2, OrderError>(OrderError::PostOnlyRequiresResting))
            }
        }),
{
}

} // verus!
