use polymarket_orders::decimal::Dec;
use polymarket_orders::order_builder::{
    assemble_signable_order_v2, compute_timestamp, to_fixed_u128, to_ieee_754_int, Limit, Market,
    OrderBuilder,
};
use polymarket_orders::types::{
    Address, Amount, AnySignableOrder, BookLevel, OrderBook, OrderError, OrderType, OrderVersion,
    Side, SignatureType, TickSize, UtcTime, B256, U256,
};

const PINNED_MS: i64 = 1_800_000_000_000;

fn dec(mantissa: i64, scale: u32) -> Dec {
    Dec::new(mantissa, scale)
}

fn signer() -> Address {
    Address { bytes: [7u8; 20] }
}

fn limit() -> OrderBuilder<Limit> {
    OrderBuilder::<Limit>::new(signer(), SignatureType::Eoa, None)
        .token_id(U256::from_u64(42))
        .side(Side::Buy)
        .price(dec(34, 2))
        .size(dec(100, 0))
}

fn market() -> OrderBuilder<Market> {
    OrderBuilder::<Market>::new(signer(), SignatureType::Eoa, None)
        .token_id(U256::from_u64(42))
        .side(Side::Buy)
}

fn level(price: Dec, size: Dec) -> BookLevel {
    BookLevel { price, size }
}

fn empty_book() -> OrderBook {
    OrderBook { bids: vec![], asks: vec![] }
}

#[test]
fn to_fixed_u128_should_succeed() {
    assert_eq!(to_fixed_u128(Dec::new(123456, 3)), 123_456_000);
    assert_eq!(to_fixed_u128(Dec::new(123456789, 6)), 123_456_789);
    assert_eq!(to_fixed_u128(Dec::new(123456789111111111, 15)), 123_456_789);
    assert_eq!(to_fixed_u128(Dec::new(3456789111111111, 15)), 3_456_789);
    assert_eq!(to_fixed_u128(Dec::zero()), 0);
}

#[test]
fn order_salt_should_be_less_than_or_equal_to_2_to_the_53_minus_1() {
    let raw_salt = u64::MAX;
    let masked_salt = to_ieee_754_int(raw_salt);

    assert!(masked_salt < (1 << 53));
}

#[test]
fn v2_post_body_expiration_matches_fixture() {
    const EXPIRATION_SECS: u64 = 1_800_003_600;
    let signable = assemble_signable_order_v2(
        U256 { limbs: [12345678901234567890u64, 0, 0, 0] },
        Side::Buy,
        dec(50, 2),
        dec(1000, 2),
        dec(1, 2),
        OrderType::GTD,
        false,
        9_999_999,
        PINNED_MS,
        None,
        Address::zero(),
        SignatureType::Eoa,
        B256::zero(),
        B256::zero(),
        U256::from_u64(EXPIRATION_SECS),
        None,
    )
    .expect("assemble_signable_order_v2 must succeed");
    assert_eq!(
        signable.expiration,
        U256::from_u64(EXPIRATION_SECS),
        "SignableOrderV2.expiration must equal the supplied value"
    );
}

#[test]
fn v2_post_body_expiration_zero_for_gtc() {
    let signable = assemble_signable_order_v2(
        U256::from_u64(1),
        Side::Buy,
        dec(50, 2),
        dec(10000, 2),
        dec(1, 2),
        OrderType::GTC,
        false,
        1,
        PINNED_MS,
        None,
        Address::zero(),
        SignatureType::Eoa,
        B256::zero(),
        B256::zero(),
        U256::zero(),
        None,
    )
    .expect("assemble_signable_order_v2 must succeed");
    assert_eq!(signable.expiration, U256::zero(), "GTC SignableOrderV2.expiration must be U256::ZERO");
}

#[test]
fn poly_1271_variant_exists_with_value_3() {
    assert_eq!(SignatureType::Poly1271.code(), 3);
}

#[test]
fn poly_1271_signing_returns_not_implemented() {
    let result = assemble_signable_order_v2(
        U256::from_u64(1),
        Side::Buy,
        dec(50, 2),
        dec(10000, 2),
        dec(1, 2),
        OrderType::GTC,
        false,
        1,
        1_800_000_000_000,
        None,
        Address::zero(),
        SignatureType::Poly1271,
        B256::zero(),
        B256::zero(),
        U256::zero(),
        None,
    );
    let err = result.expect_err("Poly1271 must return Err, not a signable order");
    assert!(matches!(err, OrderError::SignatureTypeNotImplemented));
    let err_string = err.description();
    assert!(
        err_string.contains("not implemented") || err_string.contains("NotImplemented"),
        "error message must mention 'not implemented'; got: {err_string}"
    );
}

#[test]
fn build_v2_assembles_ms_timestamp() {
    let result = assemble_signable_order_v2(
        U256::from_u64(1),
        Side::Buy,
        dec(50, 2),
        dec(10000, 2),
        dec(1, 2),
        OrderType::GTC,
        false,
        1,
        PINNED_MS,
        None,
        Address::zero(),
        SignatureType::Eoa,
        B256::zero(),
        B256::zero(),
        U256::zero(),
        None,
    );
    let signable = result.expect("assemble_signable_order_v2 must succeed with valid inputs");
    assert_eq!(signable.order.timestamp, U256::from_u64(1_800_000_000_000u64));
}

#[test]
fn signature_type_codes() {
    assert_eq!(SignatureType::Eoa.code(), 0);
    assert_eq!(SignatureType::Proxy.code(), 1);
    assert_eq!(SignatureType::GnosisSafe.code(), 2);
    assert_eq!(Side::Buy.code(), 0);
    assert_eq!(Side::Sell.code(), 1);
}

#[test]
fn to_fixed_u128_strips_trailing_zeros_before_truncating() {
    // 1.5000000000 (scale 10) normalizes to 1.5 and pads back to six places.
    assert_eq!(to_fixed_u128(Dec::new(15_000_000_000, 10)), 1_500_000);
    // Values with more than six places are truncated, not rounded.
    assert_eq!(to_fixed_u128(Dec::new(9_999_999, 7)), 999_999);
    // A small negative value truncates to zero.
    assert_eq!(to_fixed_u128(Dec::new(-1, 7)), 0);
}

#[test]
fn salt_is_masked_to_53_bits() {
    assert_eq!(to_ieee_754_int(u64::MAX), (1u64 << 53) - 1);
    assert_eq!(to_ieee_754_int(1u64 << 53), 0);
    assert_eq!(to_ieee_754_int(12345), 12345);
}

#[test]
fn compute_timestamp_keeps_milliseconds() {
    assert_eq!(compute_timestamp(PINNED_MS), U256::from_u64(1_800_000_000_000u64));
    assert_eq!(compute_timestamp(0), U256::zero());
}

#[test]
fn limit_buy_100_yes_at_34_cents() {
    let order = limit().build(0, TickSize::Hundredth, 5).expect("valid limit order");
    assert_eq!(order.order.taker_amount, 100_000_000);
    assert_eq!(order.order.maker_amount, 34_000_000);
    assert_eq!(order.order.side, 0);
    assert_eq!(order.order.salt, 5);
    assert_eq!(order.order.maker, signer());
    assert_eq!(order.order.taker, Address::zero());
    assert_eq!(order.order.expiration, 0);
    assert_eq!(order.order_type, OrderType::GTC);
    assert_eq!(order.post_only, Some(false));
}

#[test]
fn limit_sell_mirrors_buy() {
    let order = limit().side(Side::Sell).build(0, TickSize::Hundredth, 5).expect("valid limit order");
    assert_eq!(order.order.taker_amount, 34_000_000);
    assert_eq!(order.order.maker_amount, 100_000_000);
    assert_eq!(order.order.side, 1);
}

#[test]
fn limit_amounts_truncate_to_tick_and_lot_precision() {
    // 12.34 shares at 0.567 (tick 0.001): 6.99678 notional, at most five places.
    let order = limit()
        .price(dec(567, 3))
        .size(dec(1234, 2))
        .build(0, TickSize::Thousandth, 1)
        .unwrap();
    assert_eq!(order.order.maker_amount, 6_996_780);
    assert_eq!(order.order.taker_amount, 12_340_000);
}

#[test]
fn limit_funder_is_maker_and_fields_carry_through() {
    let funder = Address { bytes: [9u8; 20] };
    let taker = Address { bytes: [3u8; 20] };
    let order = OrderBuilder::<Limit>::new(signer(), SignatureType::GnosisSafe, Some(funder))
        .token_id(U256::from_u64(42))
        .side(Side::Buy)
        .price(dec(5, 1))
        .size(dec(10, 0))
        .nonce(7)
        .taker(taker)
        .order_type(OrderType::GTD)
        .expiration(UtcTime { secs: 1_800_003_600, nanos: 0 })
        .post_only(true)
        .build(30, TickSize::Tenth, 9)
        .unwrap();
    assert_eq!(order.order.maker, funder);
    assert_eq!(order.order.signer, signer());
    assert_eq!(order.order.taker, taker);
    assert_eq!(order.order.nonce, 7);
    assert_eq!(order.order.fee_rate_bps, 30);
    assert_eq!(order.order.expiration, 1_800_003_600);
    assert_eq!(order.order.signature_type, 2);
    assert_eq!(order.order.token_id, U256::from_u64(42));
    assert_eq!(order.order_type, OrderType::GTD);
    assert_eq!(order.post_only, Some(true));
}

#[test]
fn limit_missing_fields_are_reported_in_order() {
    let base = OrderBuilder::<Limit>::new(signer(), SignatureType::Eoa, None);
    assert!(matches!(base.build(0, TickSize::Hundredth, 0), Err(OrderError::MissingTokenId)));
    let b = OrderBuilder::<Limit>::new(signer(), SignatureType::Eoa, None).token_id(U256::from_u64(1));
    assert!(matches!(b.build(0, TickSize::Hundredth, 0), Err(OrderError::MissingSide)));
    let b = OrderBuilder::<Limit>::new(signer(), SignatureType::Eoa, None)
        .token_id(U256::from_u64(1))
        .side(Side::Buy);
    assert!(matches!(b.build(0, TickSize::Hundredth, 0), Err(OrderError::MissingPrice)));
    let b = OrderBuilder::<Limit>::new(signer(), SignatureType::Eoa, None)
        .token_id(U256::from_u64(1))
        .side(Side::Buy)
        .price(dec(5, 1));
    assert!(matches!(b.build(0, TickSize::Hundredth, 0), Err(OrderError::MissingSize)));
}

#[test]
fn limit_price_checks() {
    assert!(matches!(
        limit().price(dec(-5, 1)).build(0, TickSize::Hundredth, 0),
        Err(OrderError::NegativePrice { .. })
    ));
    assert!(matches!(
        limit().price(dec(345, 3)).build(0, TickSize::Hundredth, 0),
        Err(OrderError::PriceTooPrecise { .. })
    ));
    assert!(matches!(
        limit().price(dec(0, 2)).build(0, TickSize::Hundredth, 0),
        Err(OrderError::PriceOutOfRange { .. })
    ));
    assert!(matches!(
        limit().price(dec(100, 2)).build(0, TickSize::Hundredth, 0),
        Err(OrderError::PriceOutOfRange { .. })
    ));
    // The bounds themselves are accepted.
    assert!(limit().price(dec(1, 2)).build(0, TickSize::Hundredth, 0).is_ok());
    assert!(limit().price(dec(99, 2)).build(0, TickSize::Hundredth, 0).is_ok());
}

#[test]
fn limit_size_checks() {
    assert!(matches!(
        limit().size(dec(1001, 3)).build(0, TickSize::Hundredth, 0),
        Err(OrderError::SizeTooPrecise { .. })
    ));
    assert!(matches!(
        limit().size(dec(0, 1)).build(0, TickSize::Hundredth, 0),
        Err(OrderError::NonPositiveSize { .. })
    ));
    assert!(matches!(
        limit().size(dec(-1, 0)).build(0, TickSize::Hundredth, 0),
        Err(OrderError::NonPositiveSize { .. })
    ));
}

#[test]
fn only_gtd_orders_may_expire() {
    let later = UtcTime { secs: 10, nanos: 0 };
    assert!(matches!(
        limit().expiration(later).build(0, TickSize::Hundredth, 0),
        Err(OrderError::ExpirationRequiresGtd)
    ));
    let half_second = UtcTime { secs: 0, nanos: 500_000_000 };
    assert!(matches!(
        limit().expiration(half_second).build(0, TickSize::Hundredth, 0),
        Err(OrderError::ExpirationRequiresGtd)
    ));
    let before = UtcTime { secs: -5, nanos: 0 };
    assert!(matches!(
        limit().order_type(OrderType::GTD).expiration(before).build(0, TickSize::Hundredth, 0),
        Err(OrderError::ExpirationNotRepresentable { .. })
    ));
}

#[test]
fn post_only_requires_a_resting_order() {
    assert!(matches!(
        limit().order_type(OrderType::FOK).post_only(true).build(0, TickSize::Hundredth, 0),
        Err(OrderError::PostOnlyRequiresResting)
    ));
    assert!(limit().order_type(OrderType::FOK).post_only(false).build(0, TickSize::Hundredth, 0).is_ok());
    assert!(matches!(
        limit().order_type(OrderType::FAK).post_only(true).build_v2(TickSize::Hundredth, 0, PINNED_MS),
        Err(OrderError::PostOnlyRequiresResting)
    ));
}

#[test]
fn unknown_side_is_invalid() {
    assert!(matches!(
        limit().side(Side::Unknown).build(0, TickSize::Hundredth, 0),
        Err(OrderError::InvalidSide { side: Side::Unknown })
    ));
}

#[test]
fn limit_v2_agrees_with_v1() {
    let v1 = limit().build(0, TickSize::Hundredth, 77).unwrap();
    let v2 = limit().build_v2(TickSize::Hundredth, 77, PINNED_MS).unwrap();
    assert_eq!(v2.order.maker_amount, v1.order.maker_amount);
    assert_eq!(v2.order.taker_amount, v1.order.taker_amount);
    assert_eq!(v2.order.salt, v1.order.salt);
    assert_eq!(v2.order.timestamp, U256::from_u64(PINNED_MS as u64));
    assert_eq!(v2.expiration, U256::zero());
}

#[test]
fn limit_v2_expiration_is_seconds_and_skips_gtd_check() {
    let v2 = limit()
        .expiration(UtcTime { secs: 1_800_003_600, nanos: 0 })
        .build_v2(TickSize::Hundredth, 1, PINNED_MS)
        .unwrap();
    assert_eq!(v2.expiration, U256::from_u64(1_800_003_600));
    assert_eq!(v2.order_type, OrderType::GTC);
}

#[test]
fn limit_build_any_dispatches_on_version() {
    match limit().build_any(0, TickSize::Hundredth, 1, PINNED_MS).unwrap() {
        AnySignableOrder::V1(o) => assert_eq!(o.order.maker_amount, 34_000_000),
        AnySignableOrder::V2(_) => panic!("expected a first-version order"),
    }
    match limit().version(OrderVersion::V2).build_any(0, TickSize::Hundredth, 1, PINNED_MS).unwrap() {
        AnySignableOrder::V2(o) => assert_eq!(o.order.timestamp, U256::from_u64(PINNED_MS as u64)),
        AnySignableOrder::V1(_) => panic!("expected a second-version order"),
    }
}

#[test]
fn limit_v2_metadata_and_builder_words() {
    let m = B256 { bytes: [1u8; 32] };
    let b = B256 { bytes: [2u8; 32] };
    let v2 = limit().metadata(m).builder(b).build_v2(TickSize::Hundredth, 1, PINNED_MS).unwrap();
    assert_eq!(v2.order.metadata, m);
    assert_eq!(v2.order.builder, b);
}

#[test]
fn market_buy_100_dollars_at_34_cents() {
    let order = market()
        .amount(Amount::usdc(dec(100, 0)).unwrap())
        .price(dec(34, 2))
        .build(&empty_book(), TickSize::Hundredth, 0, 3)
        .unwrap();
    assert_eq!(order.order.taker_amount, 294_117_600);
    assert_eq!(order.order.maker_amount, 100_000_000);
    assert_eq!(order.order_type, OrderType::FAK);
    assert_eq!(order.post_only, None);
    assert_eq!(order.order.expiration, 0);
}

#[test]
fn market_sell_100_shares_at_34_cents() {
    let order = market()
        .side(Side::Sell)
        .amount(Amount::shares(dec(100, 0)).unwrap())
        .price(dec(34, 2))
        .build(&empty_book(), TickSize::Hundredth, 0, 3)
        .unwrap();
    assert_eq!(order.order.taker_amount, 34_000_000);
    assert_eq!(order.order.maker_amount, 100_000_000);
}

#[test]
fn market_buy_shares() {
    let order = market()
        .amount(Amount::shares(dec(10, 0)).unwrap())
        .price(dec(34, 2))
        .build(&empty_book(), TickSize::Hundredth, 0, 3)
        .unwrap();
    assert_eq!(order.order.taker_amount, 10_000_000);
    assert_eq!(order.order.maker_amount, 3_400_000);
}

#[test]
fn market_price_is_truncated_to_the_tick() {
    let order = market()
        .amount(Amount::shares(dec(10, 0)).unwrap())
        .price(dec(3456, 4))
        .build(&empty_book(), TickSize::Hundredth, 0, 3)
        .unwrap();
    assert_eq!(order.order.maker_amount, 3_400_000);
}

#[test]
fn market_price_from_the_book() {
    // Asks are walked from the last level: 10 shares at 0.40, then 20 at 0.50.
    let book = OrderBook {
        bids: vec![level(dec(30, 2), dec(100, 0))],
        asks: vec![level(dec(50, 2), dec(20, 0)), level(dec(40, 2), dec(10, 0))],
    };
    let order = market()
        .amount(Amount::shares(dec(15, 0)).unwrap())
        .build(&book, TickSize::Hundredth, 0, 3)
        .unwrap();
    // 15 shares are only covered once the 0.50 level is reached.
    assert_eq!(order.order.maker_amount, 7_500_000);
    // In collateral: 10 * 0.40 = 4 covers $3, so the cutoff is 0.40.
    let order = market()
        .amount(Amount::usdc(dec(3, 0)).unwrap())
        .build(&book, TickSize::Hundredth, 0, 3)
        .unwrap();
    assert_eq!(order.order.taker_amount, 7_500_000);
    // A sell walks the bids.
    let order = market()
        .side(Side::Sell)
        .amount(Amount::shares(dec(5, 0)).unwrap())
        .build(&book, TickSize::Hundredth, 0, 3)
        .unwrap();
    assert_eq!(order.order.taker_amount, 1_500_000);
}

#[test]
fn market_price_without_enough_depth() {
    let book = OrderBook { bids: vec![], asks: vec![level(dec(50, 2), dec(1, 0)), level(dec(40, 2), dec(1, 0))] };
    // Fill-and-kill falls back to the first level's price.
    let order = market()
        .amount(Amount::shares(dec(100, 0)).unwrap())
        .build(&book, TickSize::Hundredth, 0, 3)
        .unwrap();
    assert_eq!(order.order.maker_amount, 50_000_000);
    // Fill-or-kill is refused.
    assert!(matches!(
        market().amount(Amount::shares(dec(100, 0)).unwrap()).order_type(OrderType::FOK).build(
            &book,
            TickSize::Hundredth,
            0,
            3
        ),
        Err(OrderError::InsufficientLiquidity { .. })
    ));
    // An empty side has no market price.
    assert!(matches!(
        market().amount(Amount::shares(dec(1, 0)).unwrap()).build(&empty_book(), TickSize::Hundredth, 0, 3),
        Err(OrderError::NoOpposingOrders { .. })
    ));
}

#[test]
fn market_order_checks() {
    assert!(matches!(
        market().build(&empty_book(), TickSize::Hundredth, 0, 3),
        Err(OrderError::MissingAmount)
    ));
    assert!(matches!(
        market().amount(Amount::shares(dec(1, 0)).unwrap()).post_only(true).build(
            &empty_book(),
            TickSize::Hundredth,
            0,
            3
        ),
        Err(OrderError::PostOnlyOnMarketOrder)
    ));
    assert!(matches!(
        market().side(Side::Sell).amount(Amount::usdc(dec(1, 0)).unwrap()).price(dec(5, 1)).build(
            &empty_book(),
            TickSize::Hundredth,
            0,
            3
        ),
        Err(OrderError::SellAmountInUsdc)
    ));
    assert!(matches!(
        market().amount(Amount::shares(dec(1, 0)).unwrap()).order_type(OrderType::GTC).build(
            &empty_book(),
            TickSize::Hundredth,
            0,
            3
        ),
        Err(OrderError::MarketOrderTypeNotImmediate)
    ));
    assert!(matches!(
        market().amount(Amount::shares(dec(1, 0)).unwrap()).price(dec(5, 3)).build(
            &empty_book(),
            TickSize::Hundredth,
            0,
            3
        ),
        Err(OrderError::PriceOutOfRange { .. })
    ));
    assert!(Amount::usdc(dec(-1, 0)).is_none());
}

#[test]
fn market_v2_buy_usdc_keeps_the_exact_collateral() {
    let order = market()
        .amount(Amount::usdc(dec(100, 0)).unwrap())
        .price(dec(33, 2))
        .build_v2(&empty_book(), TickSize::Hundredth, 4, PINNED_MS)
        .unwrap();
    assert_eq!(order.order.maker_amount, 100_000_000);
    assert_eq!(order.order.taker_amount, 303_030_300);
    assert_eq!(order.post_only, Some(false));
    assert_eq!(order.expiration, U256::zero());
    assert_eq!(order.order.timestamp, U256::from_u64(PINNED_MS as u64));
}

#[test]
fn market_v2_checks() {
    assert!(matches!(
        market().amount(Amount::shares(dec(1, 0)).unwrap()).order_type(OrderType::GTD).build_v2(
            &empty_book(),
            TickSize::Hundredth,
            4,
            PINNED_MS
        ),
        Err(OrderError::V2MarketOrderTypeNotImmediate)
    ));
    assert!(matches!(
        market().amount(Amount::shares(dec(0, 0)).unwrap()).price(dec(5, 1)).build_v2(
            &empty_book(),
            TickSize::Hundredth,
            4,
            PINNED_MS
        ),
        Err(OrderError::NonPositiveMarketSize { .. })
    ));
    let sell = market()
        .side(Side::Sell)
        .amount(Amount::shares(dec(100, 0)).unwrap())
        .price(dec(34, 2))
        .build_v2(&empty_book(), TickSize::Hundredth, 4, PINNED_MS)
        .unwrap();
    assert_eq!(sell.order.maker_amount, 100_000_000);
    assert_eq!(sell.order.taker_amount, 34_000_000);
}

#[test]
fn market_build_any_dispatches_on_version() {
    let b = market().amount(Amount::shares(dec(10, 0)).unwrap()).price(dec(34, 2));
    assert!(matches!(
        b.build_any(&empty_book(), TickSize::Hundredth, 0, 1, PINNED_MS),
        Ok(AnySignableOrder::V1(_))
    ));
    let b = market().amount(Amount::shares(dec(10, 0)).unwrap()).price(dec(34, 2)).version(OrderVersion::V2);
    assert!(matches!(
        b.build_any(&empty_book(), TickSize::Hundredth, 0, 1, PINNED_MS),
        Ok(AnySignableOrder::V2(_))
    ));
}

#[test]
fn assembly_override_applies_to_buys_only() {
    let buy = assemble_signable_order_v2(
        U256::from_u64(1),
        Side::Buy,
        dec(50, 2),
        dec(10, 0),
        dec(1, 2),
        OrderType::FAK,
        false,
        1,
        PINNED_MS,
        None,
        signer(),
        SignatureType::Eoa,
        B256::zero(),
        B256::zero(),
        U256::zero(),
        Some(123),
    )
    .unwrap();
    assert_eq!(buy.order.maker_amount, 123);
    assert_eq!(buy.order.taker_amount, 10_000_000);
    let sell = assemble_signable_order_v2(
        U256::from_u64(1),
        Side::Sell,
        dec(50, 2),
        dec(10, 0),
        dec(1, 2),
        OrderType::FAK,
        false,
        1,
        PINNED_MS,
        None,
        signer(),
        SignatureType::Eoa,
        B256::zero(),
        B256::zero(),
        U256::zero(),
        Some(123),
    )
    .unwrap();
    assert_eq!(sell.order.maker_amount, 10_000_000);
    assert_eq!(sell.order.taker_amount, 5_000_000);
}

#[test]
fn checks_before_fetching_match_the_build() {
    let no_price = OrderBuilder::<Limit>::new(signer(), SignatureType::Eoa, None)
        .token_id(U256::from_u64(1))
        .side(Side::Buy);
    assert!(matches!(no_price.check_before_fetch(), Err(OrderError::MissingPrice)));
    assert!(matches!(no_price.build(0, TickSize::Hundredth, 0), Err(OrderError::MissingPrice)));
    assert_eq!(limit().check_before_fetch().unwrap(), U256::from_u64(42));
    let (token, needs_book) = market().amount(Amount::shares(dec(1, 0)).unwrap()).check_before_fetch(OrderVersion::V1).unwrap();
    assert_eq!(token, U256::from_u64(42));
    assert!(needs_book);
    let (_, needs_book) =
        market().amount(Amount::shares(dec(1, 0)).unwrap()).price(dec(5, 1)).check_before_fetch(OrderVersion::V2).unwrap();
    assert!(!needs_book);
    let v2_gtc = market().amount(Amount::shares(dec(1, 0)).unwrap()).order_type(OrderType::GTC).version(OrderVersion::V2);
    assert!(matches!(v2_gtc.check_before_fetch(OrderVersion::V2), Err(OrderError::V2MarketOrderTypeNotImmediate)));
    // The version of the build that runs decides, not the builder's field: the
    // first-version build takes a good-till-cancelled order with a price.
    let v1_gtc = market().amount(Amount::shares(dec(1, 0)).unwrap()).order_type(OrderType::GTC).price(dec(5, 1));
    assert!(v1_gtc.check_before_fetch(OrderVersion::V1).is_ok());
    assert!(matches!(v1_gtc.check_before_fetch(OrderVersion::V2), Err(OrderError::V2MarketOrderTypeNotImmediate)));
    assert!(v1_gtc.version(OrderVersion::V2).build(&empty_book(), TickSize::Hundredth, 0, 1).is_ok());
}

#[test]
fn v2_limit_orders_skip_the_gtd_rule() {
    let b = limit().expiration(UtcTime { secs: 10, nanos: 0 });
    assert!(matches!(b.build(0, TickSize::Hundredth, 0), Err(OrderError::ExpirationRequiresGtd)));
    let b = limit().expiration(UtcTime { secs: 10, nanos: 0 });
    assert_eq!(b.build_v2(TickSize::Hundredth, 0, PINNED_MS).unwrap().expiration, U256::from_u64(10));
}

#[test]
fn market_v2_collateral_is_rounded_down_to_lot_precision() {
    let order = market()
        .amount(Amount::usdc(dec(1_001_234_567, 7)).unwrap())
        .price(dec(50, 2))
        .build_v2(&empty_book(), TickSize::Hundredth, 4, PINNED_MS)
        .unwrap();
    assert_eq!(order.order.maker_amount, 100_120_000);
    assert_eq!(order.order.taker_amount, 200_246_900);
    // 10.123 collateral at 0.50: the maker gives 10.12.
    let order = market()
        .amount(Amount::usdc(dec(10_123, 3)).unwrap())
        .price(dec(50, 2))
        .build_v2(&empty_book(), TickSize::Hundredth, 4, PINNED_MS)
        .unwrap();
    assert_eq!(order.order.maker_amount, 10_120_000);
    assert_eq!(order.order.taker_amount, 20_246_000);
    // The first-version order keeps the collateral in millionths.
    let order = market()
        .amount(Amount::usdc(dec(10_123, 3)).unwrap())
        .price(dec(50, 2))
        .build(&empty_book(), TickSize::Hundredth, 0, 4)
        .unwrap();
    assert_eq!(order.order.maker_amount, 10_123_000);
}

#[test]
fn market_v1_collateral_buy_walks_the_asks() {
    let book = OrderBook { bids: vec![], asks: vec![level(dec(60, 2), dec(100, 0)), level(dec(25, 2), dec(4, 0))] };
    // 4 shares at 0.25 cover only $1 of $5, so the cutoff is 0.60.
    let order = market().amount(Amount::usdc(dec(5, 0)).unwrap()).build(&book, TickSize::Hundredth, 0, 3).unwrap();
    assert_eq!(order.order.maker_amount, 5_000_000);
    assert_eq!(order.order.taker_amount, 8_333_300);
}

#[test]
fn market_orders_finish_from_a_given_quotient() {
    // Buy $100 at 0.34: 100 / 0.34 = 294.117647..., truncated to 294.1176 shares.
    let b = market().amount(Amount::usdc(dec(100, 0)).unwrap());
    let order = b
        .build_priced(
            U256::from_u64(42),
            Side::Buy,
            Amount::usdc(dec(100, 0)).unwrap(),
            OrderType::FAK,
            dec(34, 2),
            TickSize::Hundredth,
            0,
            3,
            dec(2_941_176_470, 7),
        )
        .unwrap();
    assert_eq!(order.order.taker_amount, 294_117_600);
    assert_eq!(order.order.maker_amount, 100_000_000);
    // Second version, 10.123 at 0.50: the quotient 20.246 gives the size, the
    // collateral rounded down to lot precision the maker amount.
    let v2 = b
        .build_v2_priced(
            U256::from_u64(42),
            Side::Buy,
            Amount::usdc(dec(10_123, 3)).unwrap(),
            OrderType::FAK,
            dec(50, 2),
            TickSize::Hundredth,
            3,
            PINNED_MS,
            dec(20_246, 3),
        )
        .unwrap();
    assert_eq!(v2.order.taker_amount, 20_246_000);
    assert_eq!(v2.order.maker_amount, 10_120_000);
    // A quotient that truncates to zero shares is refused.
    assert!(matches!(
        b.build_v2_priced(
            U256::from_u64(42),
            Side::Buy,
            Amount::usdc(dec(1, 5)).unwrap(),
            OrderType::FAK,
            dec(50, 2),
            TickSize::Hundredth,
            3,
            PINNED_MS,
            dec(2, 5),
        ),
        Err(OrderError::NonPositiveMarketSize { .. })
    ));
}

#[test]
fn market_v2_large_collateral_is_rounded_down_exactly() {
    let collateral = Dec::from_i128_with_scale(1_000_000_000_000_000_000_123, 3);
    let order = market()
        .amount(Amount::usdc(collateral).unwrap())
        .price(dec(50, 2))
        .build_v2(&empty_book(), TickSize::Hundredth, 4, PINNED_MS)
        .unwrap();
    assert_eq!(order.order.maker_amount, 1_000_000_000_000_000_000_120_000);
    assert_eq!(order.order.taker_amount, 2_000_000_000_000_000_000_246_000);
}

#[test]
fn market_order_type_errors_name_the_version() {
    assert_eq!(
        OrderError::MarketOrderTypeNotImmediate.description(),
        "Cannot set an order type other than FAK/FOK for a market order"
    );
    assert_eq!(
        OrderError::V2MarketOrderTypeNotImmediate.description(),
        "V2 market orders must use FOK or FAK order type"
    );
}
