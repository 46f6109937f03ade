use polymarket_orders::decimal::Dec;
use polymarket_orders::market_order::walk_fits;
use polymarket_orders::order_builder::{
    assemble_signable_order_v2, try_assemble_signable_order_v2, Market, OrderBuilder,
};
use polymarket_orders::overflow::{fits_add, fits_div, fits_mul};
use polymarket_orders::types::{
    Address, Amount, AnySignableOrder, BookLevel, OrderBook, OrderError, OrderType, OrderVersion,
    Side, SignatureType, TickSize, B256, U256,
};

const MAX: i128 = 79_228_162_514_264_337_593_543_950_335;

fn big(mantissa: i128, scale: u32) -> Dec {
    Dec::from_i128_with_scale(mantissa, scale)
}

fn level(price: Dec, size: Dec) -> BookLevel {
    BookLevel { price, size }
}

fn market() -> OrderBuilder<Market> {
    OrderBuilder::<Market>::new(Address { bytes: [7u8; 20] }, SignatureType::Eoa, None)
        .token_id(U256::from_u64(42))
        .side(Side::Buy)
}

#[test]
fn products_at_the_limit() {
    // MAX * 1 fits; MAX * 1.1 does not; MAX * 0.1 fits.
    assert!(fits_mul(big(MAX, 0), Dec::one()));
    assert!(!fits_mul(big(MAX, 0), Dec::new(11, 1)));
    assert!(fits_mul(big(MAX, 0), Dec::new(1, 1)));
    // The mantissas may overflow 96 bits when the scales bring the value down.
    assert!(fits_mul(big(MAX, 20), big(MAX, 20)));
    assert!(!fits_mul(big(MAX, 10), big(MAX, 10)));
    // Signs do not matter, zero always fits.
    assert!(!fits_mul(big(-MAX, 0), Dec::new(-2, 0)));
    assert!(fits_mul(big(MAX, 0), Dec::zero()));
    // 2^48 * 2^48 = 2^96 is just over the largest mantissa.
    assert!(!fits_mul(big(1 << 48, 0), big(1 << 48, 0)));
    assert!(fits_mul(big(1 << 48, 0), big((1 << 48) - 1, 0)));
}

#[test]
fn sums_at_the_limit() {
    assert!(fits_add(big(MAX - 1, 0), Dec::one()));
    assert!(!fits_add(big(MAX, 0), Dec::one()));
    // A fraction over the limit is too much: MAX + 0.1.
    assert!(!fits_add(big(MAX, 0), Dec::new(1, 1)));
    assert!(fits_add(big(MAX - 1, 0), Dec::new(9, 1)));
    // Opposite signs never overflow.
    assert!(fits_add(big(MAX, 0), big(-MAX, 0)));
    assert!(!fits_add(big(-MAX, 0), Dec::new(-1, 0)));
    assert!(fits_add(big(MAX, 28), big(MAX, 28)));
}

#[test]
fn quotients_at_the_limit() {
    assert!(fits_div(big(MAX, 0), Dec::one()));
    assert!(!fits_div(big(MAX, 0), Dec::new(9, 1)));
    assert!(fits_div(big(MAX, 1), Dec::new(1, 1)));
    assert!(!fits_div(big(MAX, 0), big(1, 28)));
    assert!(fits_div(Dec::new(100, 0), Dec::new(34, 2)));
}

#[test]
fn walks_that_overflow_are_detected() {
    let target = Dec::new(1000, 0);
    // 10 * 0.5 then 10 * 0.4: small sums.
    let small = vec![level(Dec::new(5, 1), Dec::new(10, 0)), level(Dec::new(4, 1), Dec::new(10, 0))];
    assert!(walk_fits(&small, true, target));
    // A level whose notional exceeds the largest decimal.
    let huge = vec![level(Dec::new(2, 0), big(MAX, 0))];
    assert!(!walk_fits(&huge, true, target));
    assert!(walk_fits(&huge, false, target));
    // Two levels whose sizes add past the limit, before the target is reached.
    let two = vec![level(Dec::new(5, 1), big(MAX, 0)), level(Dec::new(5, 1), big(MAX - 1, 0))];
    assert!(!walk_fits(&two, false, big(MAX, 0)));
    // The walk stops at the first level once the target is reached.
    assert!(walk_fits(&two, false, Dec::new(1, 0)));
}

#[test]
fn market_builds_that_would_overflow_give_none() {
    let book = OrderBook { bids: vec![], asks: vec![level(Dec::new(2, 0), big(MAX, 0))] };
    let b = market().amount(Amount::usdc(Dec::new(10, 0)).unwrap());
    assert!(b.try_build(&book, TickSize::Hundredth, 0, 3).is_none());
    assert!(market()
        .amount(Amount::usdc(Dec::new(10, 0)).unwrap())
        .try_build_v2(&book, TickSize::Hundredth, 3, 1_800_000_000_000)
        .is_none());
    // With a price of its own the order never walks the book.
    let priced = market().amount(Amount::usdc(Dec::new(10, 0)).unwrap()).price(Dec::new(5, 1));
    let order = priced.try_build(&book, TickSize::Hundredth, 0, 3).unwrap().unwrap();
    assert_eq!(order.order.maker_amount, 10_000_000);
    assert_eq!(order.order.taker_amount, 20_000_000);
    // Collateral too large for base units: a second-version order gives none.
    let huge_usdc = market().amount(Amount::usdc(big(MAX, 5)).unwrap()).price(Dec::new(5, 1));
    assert!(huge_usdc.try_build_v2(&book, TickSize::Hundredth, 3, 0).is_none());
}

#[test]
fn market_try_builds_agree_with_the_builds() {
    let book = OrderBook {
        bids: vec![level(Dec::new(30, 2), Dec::new(100, 0))],
        asks: vec![level(Dec::new(50, 2), Dec::new(20, 0)), level(Dec::new(40, 2), Dec::new(10, 0))],
    };
    let b = market().amount(Amount::shares(Dec::new(15, 0)).unwrap());
    let tried = b.try_build(&book, TickSize::Hundredth, 5, 3).unwrap().unwrap();
    let built = market()
        .amount(Amount::shares(Dec::new(15, 0)).unwrap())
        .build(&book, TickSize::Hundredth, 5, 3)
        .unwrap();
    assert_eq!(tried.order, built.order);
    assert_eq!(tried.order.maker_amount, 7_500_000);
    let v2 = market()
        .amount(Amount::usdc(Dec::new(3, 0)).unwrap())
        .version(OrderVersion::V2)
        .try_build_any(&book, TickSize::Hundredth, 5, 3, 1_800_000_000_000)
        .unwrap()
        .unwrap();
    match v2 {
        AnySignableOrder::V2(o) => {
            assert_eq!(o.order.maker_amount, 3_000_000);
            assert_eq!(o.order.taker_amount, 7_500_000);
            assert_eq!(o.order.timestamp, U256::from_u64(1_800_000_000_000));
        },
        AnySignableOrder::V1(_) => panic!("expected a second-version order"),
    }
    // Errors come through unchanged.
    assert!(matches!(
        market().try_build(&book, TickSize::Hundredth, 5, 3),
        Some(Err(OrderError::MissingAmount))
    ));
}

fn try_assemble(side: Side, price: Dec, size: Dec) -> Option<Result<polymarket_orders::types::SignableOrderV2, OrderError>> {
    try_assemble_signable_order_v2(
        U256::from_u64(1),
        side,
        price,
        size,
        Dec::new(1, 2),
        OrderType::GTC,
        false,
        1,
        1_800_000_000_000,
        None,
        Address::zero(),
        SignatureType::Eoa,
        B256::zero(),
        B256::zero(),
        U256::zero(),
        None,
    )
}

#[test]
fn assembly_of_a_negative_notional_gives_none() {
    // A negative price makes the notional negative: it has no unsigned amount.
    assert!(try_assemble(Side::Buy, Dec::new(-50, 2), Dec::new(100, 0)).is_none());
    assert!(try_assemble(Side::Sell, Dec::new(-50, 2), Dec::new(100, 0)).is_none());
    // A negative notional that truncates to zero millionths is still representable.
    let tiny = try_assemble(Side::Sell, big(-1, 9), Dec::new(1, 0)).unwrap().unwrap();
    assert_eq!(tiny.order.taker_amount, 0);
    // Otherwise it is the assembly itself.
    let ok = try_assemble(Side::Buy, Dec::new(50, 2), Dec::new(100, 0)).unwrap().unwrap();
    let direct = assemble_signable_order_v2(
        U256::from_u64(1),
        Side::Buy,
        Dec::new(50, 2),
        Dec::new(100, 0),
        Dec::new(1, 2),
        OrderType::GTC,
        false,
        1,
        1_800_000_000_000,
        None,
        Address::zero(),
        SignatureType::Eoa,
        B256::zero(),
        B256::zero(),
        U256::zero(),
        None,
    )
    .unwrap();
    assert_eq!(ok.order, direct.order);
    assert_eq!(ok.order.maker_amount, 50_000_000);
    // Smart-contract signatures are refused before any amount is computed.
    let refused = try_assemble_signable_order_v2(
        U256::from_u64(1),
        Side::Buy,
        Dec::new(-50, 2),
        Dec::new(100, 0),
        Dec::new(1, 2),
        OrderType::GTC,
        false,
        1,
        1_800_000_000_000,
        None,
        Address::zero(),
        SignatureType::Poly1271,
        B256::zero(),
        B256::zero(),
        U256::zero(),
        None,
    );
    assert!(matches!(refused, Some(Err(OrderError::SignatureTypeNotImplemented))));
}
