use polymarket_orders::decimal::Dec;
use polymarket_orders::types::{Amount, AmountInner, TickSize, U256};

fn parts(d: Dec) -> (i128, u32, bool) {
    (d.mantissa, d.scale, d.negative)
}

#[test]
fn decimal_constructors() {
    assert_eq!(parts(Dec::new(-15, 1)), (-15, 1, true));
    assert_eq!(parts(Dec::from_i128_with_scale(79_228_162_514_264_337_593_543_950_335, 28)), (
        79_228_162_514_264_337_593_543_950_335,
        28,
        false
    ));
    assert_eq!(parts(Dec::from_u64(7)), (7, 0, false));
    assert_eq!(parts(Dec::zero()), (0, 0, false));
    assert_eq!(parts(Dec::one()), (1, 0, false));
}

#[test]
fn decimal_accessors() {
    let d = Dec::new(-314, 2);
    assert!(d.is_sign_negative());
    assert!(!d.is_zero());
    assert_eq!(d.scale(), 2);
    assert_eq!(d.mantissa(), -314);
    assert!(Dec::new(0, 3).is_zero());
    assert!(Dec { mantissa: 0, scale: 0, negative: true }.is_sign_negative());
}

#[test]
fn tick_sizes() {
    assert_eq!(parts(TickSize::Tenth.as_decimal()), (1, 1, false));
    assert_eq!(parts(TickSize::Hundredth.as_decimal()), (1, 2, false));
    assert_eq!(parts(TickSize::Thousandth.as_decimal()), (1, 3, false));
    assert_eq!(parts(TickSize::TenThousandth.as_decimal()), (1, 4, false));
}

#[test]
fn words_and_amounts() {
    assert_eq!(U256::from_u64(5), U256 { limbs: [5, 0, 0, 0] });
    assert_eq!(U256::zero(), U256 { limbs: [0, 0, 0, 0] });
    let a = Amount::shares(Dec::new(25, 1)).unwrap();
    assert!(matches!(a.0, AmountInner::Shares(_)));
    assert_eq!(parts(a.as_inner()), (25, 1, false));
    assert!(Amount::shares(Dec::new(-25, 1)).is_none());
    assert!(matches!(Amount::usdc(Dec::new(0, 0)).unwrap().0, AmountInner::Usdc(_)));
}
