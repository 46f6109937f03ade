//! The values that orders are made of: identifiers, enums of the exchange's
//! protocol, amounts, tick sizes, times, and the orders themselves.
use crate::decimal::Dec;
use vstd::prelude::*;

verus! {

/// A 20-byte account address.
#[derive(Clone, Copy, Debug, PartialEq, Eq)]
pub struct Address {
    pub bytes: [u8; 20],
}

impl Address {
    /// The all-zero address.
    pub open spec fn spec_zero() -> Address {
        Address { bytes: vstd::array::spec_array_fill_for_copy_type::<u8, 20>(0u8) }
    }

    /// The all-zero address.
    pub fn zero() -> (r: Address)
        ensures
            r == Address::spec_zero(),
    {
        Address { bytes: [0u8; 20] }
    }
}

/// A 32-byte word.
#[derive(Clone, Copy, Debug, PartialEq, Eq)]
pub struct B256 {
    pub bytes: [u8; 32],
}

impl B256 {
    /// The all-zero word.
    pub open spec fn spec_zero() -> B256 {
        B256 { bytes: vstd::array::spec_array_fill_for_copy_type::<u8, 32>(0u8) }
    }

    /// The all-zero word.
    pub fn zero() -> (r: B256)
        ensures
            r == B256::spec_zero(),
    {
        B256 { bytes: [0u8; 32] }
    }
}

/// A 256-bit unsigned integer as four little-endian 64-bit limbs.
#[derive(Clone, Copy, Debug, PartialEq, Eq)]
pub struct U256 {
    pub limbs: [u64; 4],
}

/// `2^64`.
pub open spec fn limb_base() -> nat {
    0x1_0000_0000_0000_0000
}

impl U256 {
    /// The number the limbs stand for.
    pub open spec fn value(self) -> nat {
        self.limbs[0] as nat + limb_base() * (self.limbs[1] as nat + limb_base() * (
        self.limbs[2] as nat + limb_base() * self.limbs[3] as nat))
    }

    /// `n` as a 256-bit integer.
    pub open spec fn spec_from_u64(n: u64) -> U256 {
        U256 { limbs: [n, 0, 0, 0] }
    }

    /// `n` as a 256-bit integer.
    pub fn from_u64(n: u64) -> (r: U256)
        ensures
            r == U256::spec_from_u64(n),
            r.value() == n,
    {
        U256 { limbs: [n, 0, 0, 0] }
    }

    /// Zero.
    pub fn zero() -> (r: U256)
        ensures
            r == U256::spec_from_u64(0),
            r.value() == 0,
    {
        U256 { limbs: [0, 0, 0, 0] }
    }
}

/// Which side of the book an order is on.
#[derive(Clone, Copy, Debug, PartialEq, Eq, Structural)]
pub enum Side {
    Buy,
    Sell,
    /// A side this client does not know.
    Unknown,
}

impl Side {
    /// The on-chain encoding (`Buy` is 0, `Sell` is 1).
    pub open spec fn spec_code(self) -> u8 {
        match self {
            Side::Buy => 0,
            Side::Sell => 1,
            Side::Unknown => 255,
        }
    }

    /// The on-chain encoding (`Buy` is 0, `Sell` is 1).
    pub fn code(&self) -> (r: u8)
        ensures
            r == self.spec_code(),
    {
        match self {
            Side::Buy => 0,
            Side::Sell => 1,
            Side::Unknown => 255,
        }
    }
}

/// Time in force of an order.
#[derive(Clone, Copy, Debug, PartialEq, Eq, Structural)]
pub enum OrderType {
    /// Good till cancelled.
    GTC,
    /// Fill or kill.
    FOK,
    /// Good till date.
    GTD,
    /// Fill and kill.
    FAK,
}

impl OrderType {
    /// Resting order types, the only ones that may be post-only.
    pub open spec fn is_resting(self) -> bool {
        self == OrderType::GTC || self == OrderType::GTD
    }

    /// Immediate order types, the only ones a market order may have.
    pub open spec fn is_immediate(self) -> bool {
        self == OrderType::FOK || self == OrderType::FAK
    }
}

/// How an order is signed.
#[derive(Clone, Copy, Debug, PartialEq, Eq, Structural)]
pub enum SignatureType {
    Eoa,
    Proxy,
    GnosisSafe,
    /// Smart-contract signatures (EIP-1271), not supported yet.
    Poly1271,
}

impl SignatureType {
    /// The on-chain encoding: 0, 1, 2 and 3 in declaration order.
    pub open spec fn spec_code(self) -> u8 {
        match self {
            SignatureType::Eoa => 0,
            SignatureType::Proxy => 1,
            SignatureType::GnosisSafe => 2,
            SignatureType::Poly1271 => 3,
        }
    }

    /// The on-chain encoding: 0, 1, 2 and 3 in declaration order.
    pub fn code(&self) -> (r: u8)
        ensures
            r == self.spec_code(),
    {
        match self {
            SignatureType::Eoa => 0,
            SignatureType::Proxy => 1,
            SignatureType::GnosisSafe => 2,
            SignatureType::Poly1271 => 3,
        }
    }
}

/// The order layout that a builder produces.
#[derive(Clone, Copy, Debug, PartialEq, Eq, Structural)]
pub enum OrderVersion {
    V1,
    V2,
}

/// The quantity of a market order.
#[derive(Clone, Copy, Debug)]
pub enum AmountInner {
    /// Collateral to spend.
    Usdc(Dec),
    /// Outcome shares to buy or sell.
    Shares(Dec),
}

impl AmountInner {
    /// The quantity, whatever its unit.
    pub open spec fn spec_value(self) -> Dec {
        match self {
            AmountInner::Usdc(d) => d,
            AmountInner::Shares(d) => d,
        }
    }
}

/// A non-negative quantity of collateral or shares.
#[derive(Clone, Copy, Debug)]
pub struct Amount(pub AmountInner);

impl Amount {
    /// The quantity is a well-formed, non-negative decimal.
    pub open spec fn wf(self) -> bool {
        self.0.spec_value().wf() && !self.0.spec_value().negative
    }

    /// The quantity, whatever its unit.
    pub open spec fn spec_as_inner(self) -> Dec {
        self.0.spec_value()
    }

    /// An amount of collateral; `None` for a negative quantity.
    pub fn usdc(d: Dec) -> (r: Option<Amount>)
        requires
            d.wf(),
        ensures
            r == (if d.negative { None } else { Some(Amount(AmountInner::Usdc(d))) }),
    {
        if d.negative {
            None
        } else {
            Some(Amount(AmountInner::Usdc(d)))
        }
    }

    /// An amount of shares; `None` for a negative quantity.
    pub fn shares(d: Dec) -> (r: Option<Amount>)
        requires
            d.wf(),
        ensures
            r == (if d.negative { None } else { Some(Amount(AmountInner::Shares(d))) }),
    {
        if d.negative {
            None
        } else {
            Some(Amount(AmountInner::Shares(d)))
        }
    }

    /// The quantity, whatever its unit.
    pub fn as_inner(&self) -> (r: Dec)
        ensures
            r == self.spec_as_inner(),
    {
        match self.0 {
            AmountInner::Usdc(d) => d,
            AmountInner::Shares(d) => d,
        }
    }
}

/// The smallest price increment of a market.
#[derive(Clone, Copy, Debug, PartialEq, Eq, Structural)]
pub enum TickSize {
    /// 0.1
    Tenth,
    /// 0.01
    Hundredth,
    /// 0.001
    Thousandth,
    /// 0.0001
    TenThousandth,
}

impl TickSize {
    /// The number of decimal places of the tick.
    pub open spec fn places(self) -> nat {
        match self {
            TickSize::Tenth => 1,
            TickSize::Hundredth => 2,
            TickSize::Thousandth => 3,
            TickSize::TenThousandth => 4,
        }
    }

    /// The tick as a decimal: 1 at scale `places`.
    pub open spec fn spec_as_decimal(self) -> Dec {
        Dec { mantissa: 1, scale: self.places() as u32, negative: false }
    }

    /// The tick as a decimal: 1 at scale `places`.
    pub fn as_decimal(&self) -> (r: Dec)
        ensures
            r == self.spec_as_decimal(),
            r.wf(),
    {
        let places: u32 = match self {
            TickSize::Tenth => 1,
            TickSize::Hundredth => 2,
            TickSize::Thousandth => 3,
            TickSize::TenThousandth => 4,
        };
        Dec { mantissa: 1, scale: places, negative: false }
    }
}

/// An instant as whole seconds since the Unix epoch and the nanoseconds past
/// that second.
#[derive(Clone, Copy, Debug, PartialEq, Eq)]
pub struct UtcTime {
    pub secs: i64,
    pub nanos: u32,
}

impl UtcTime {
    /// The Unix epoch.
    pub open spec fn spec_epoch() -> UtcTime {
        UtcTime { secs: 0, nanos: 0 }
    }

    /// Later than the Unix epoch.
    pub open spec fn after_epoch(self) -> bool {
        self.secs > 0 || (self.secs == 0 && self.nanos > 0)
    }

    /// The Unix epoch.
    pub fn epoch() -> (r: UtcTime)
        ensures
            r == UtcTime::spec_epoch(),
    {
        UtcTime { secs: 0, nanos: 0 }
    }

    /// Whether this instant is later than the Unix epoch.
    pub fn is_after_epoch(&self) -> (r: bool)
        ensures
            r == self.after_epoch(),
    {
        self.secs > 0 || (self.secs == 0 && self.nanos > 0)
    }
}

/// A price level of an order book.
#[derive(Clone, Copy, Debug)]
pub struct BookLevel {
    pub price: Dec,
    pub size: Dec,
}

/// Both sides of an order book, best levels last.
#[derive(Clone, Debug)]
pub struct OrderBook {
    pub bids: Vec<BookLevel>,
    pub asks: Vec<BookLevel>,
}

/// Every level holds well-formed decimals.
pub open spec fn levels_wf(levels: Seq<BookLevel>) -> bool {
    forall|i: int| 0 <= i < levels.len() ==> (#[trigger] levels[i]).price.wf() && levels[i].size.wf()
}

impl OrderBook {
    /// Every level holds well-formed decimals.
    pub open spec fn wf(&self) -> bool {
        levels_wf(self.bids@) && levels_wf(self.asks@)
    }
}

/// A first-version exchange order.
#[derive(Clone, Copy, Debug, PartialEq, Eq)]
pub struct Order {
    pub salt: u64,
    pub maker: Address,
    pub taker: Address,
    pub token_id: U256,
    pub maker_amount: u128,
    pub taker_amount: u128,
    pub side: u8,
    pub fee_rate_bps: u64,
    pub nonce: u64,
    pub signer: Address,
    pub expiration: u64,
    pub signature_type: u8,
}

/// A second-version exchange order.
#[derive(Clone, Copy, Debug, PartialEq, Eq)]
pub struct OrderV2 {
    pub salt: u64,
    pub maker: Address,
    pub signer: Address,
    pub token_id: U256,
    pub maker_amount: u128,
    pub taker_amount: u128,
    pub side: u8,
    pub signature_type: u8,
    /// Milliseconds since the Unix epoch.
    pub timestamp: U256,
    pub metadata: B256,
    pub builder: B256,
}

/// A first-version order ready to be signed.
#[derive(Clone, Copy, Debug)]
pub struct SignableOrder {
    pub order: Order,
    pub order_type: OrderType,
    pub post_only: Option<bool>,
}

/// A second-version order ready to be signed; the expiration (seconds since the
/// epoch, zero for none) travels beside the signed fields.
#[derive(Clone, Copy, Debug)]
pub struct SignableOrderV2 {
    pub order: OrderV2,
    pub order_type: OrderType,
    pub post_only: Option<bool>,
    pub expiration: U256,
}

/// An order of either layout.
#[derive(Clone, Copy, Debug)]
pub enum AnySignableOrder {
    V1(SignableOrder),
    V2(SignableOrderV2),
}

/// Why an order could not be built.
#[derive(Clone, Copy, Debug)]
pub enum OrderError {
    MissingTokenId,
    MissingSide,
    MissingPrice,
    MissingSize,
    MissingAmount,
    NegativePrice { price: Dec },
    /// The price has more decimal places than the tick size.
    PriceTooPrecise { price: Dec, tick: Dec },
    /// The price is below the tick size or above one minus the tick size.
    PriceOutOfRange { price: Dec, tick: Dec },
    /// The size has more than two decimal places.
    SizeTooPrecise { size: Dec },
    /// The size is zero or negative.
    NonPositiveSize { size: Dec },
    /// An expiration later than the epoch on an order that is not good-till-date.
    ExpirationRequiresGtd,
    /// Post-only on an order that is neither good-till-cancelled nor good-till-date.
    PostOnlyRequiresResting,
    /// Post-only on a market order.
    PostOnlyOnMarketOrder,
    /// A first-version market order priced from the book whose type is neither
    /// fill-or-kill nor fill-and-kill.
    MarketOrderTypeNotImmediate,
    /// A second-version market order whose type is neither fill-or-kill nor
    /// fill-and-kill.
    V2MarketOrderTypeNotImmediate,
    InvalidSide { side: Side },
    /// The expiration is before the epoch and has no unsigned representation.
    ExpirationNotRepresentable { expiration: UtcTime },
    /// A sell order whose amount is given in collateral.
    SellAmountInUsdc,
    /// The opposing side of the book is empty.
    NoOpposingOrders { token_id: U256 },
    /// A fill-or-kill order that the book cannot fill.
    InsufficientLiquidity { token_id: U256, amount: Dec },
    /// The maker amount of a collateral market order does not fit.
    MakerAmountOverflow,
    /// The derived market order size is zero or negative.
    NonPositiveMarketSize { size: Dec },
    /// Smart-contract (EIP-1271) signatures are not implemented.
    SignatureTypeNotImplemented,
}

impl OrderError {
    /// The text that describes an error of this kind.
    pub open spec fn spec_description(self) -> Seq<char> {
        match self {
            OrderError::MissingTokenId => "Unable to build Order due to missing token ID"@,
            OrderError::MissingSide => "Unable to build Order due to missing token side"@,
            OrderError::MissingPrice => "Unable to build Order due to missing price"@,
            OrderError::MissingSize => "Unable to build Order due to missing size"@,
            OrderError::MissingAmount => "Unable to build Order due to missing amount"@,
            OrderError::NegativePrice { .. } => "Unable to build Order due to negative price"@,
            OrderError::PriceTooPrecise { .. } => "Unable to build Order: Price has more decimal places than the minimum tick size"@,
            OrderError::PriceOutOfRange { .. } => "Price is too small or too large for the minimum tick size"@,
            OrderError::SizeTooPrecise { .. } => "Unable to build Order: Size has more decimal places than the maximum lot size"@,
            OrderError::NonPositiveSize { .. } => "Unable to build Order due to negative size"@,
            OrderError::ExpirationRequiresGtd => "Only GTD orders may have a non-zero expiration"@,
            OrderError::PostOnlyRequiresResting => "postOnly is only supported for GTC and GTD orders"@,
            OrderError::PostOnlyOnMarketOrder => "postOnly is only supported for limit orders"@,
            OrderError::MarketOrderTypeNotImmediate => "Cannot set an order type other than FAK/FOK for a market order"@,
            OrderError::V2MarketOrderTypeNotImmediate => "V2 market orders must use FOK or FAK order type"@,
            OrderError::InvalidSide { .. } => "Invalid side"@,
            OrderError::ExpirationNotRepresentable { .. } => "Unable to represent expiration as a u64"@,
            OrderError::SellAmountInUsdc => "Sell Orders must specify their `amount`s in shares"@,
            OrderError::NoOpposingOrders { .. } => "No opposing orders, which means there is no market price"@,
            OrderError::InsufficientLiquidity { .. } => "Insufficient liquidity to fill order"@,
            OrderError::MakerAmountOverflow => "maker_amount overflow"@,
            OrderError::NonPositiveMarketSize { .. } => "Unable to build market order due to zero/negative size"@,
            OrderError::SignatureTypeNotImplemented => "EIP-1271 smart-contract signing not implemented (SignatureType::Poly1271)"@,
        }
    }

    /// The text that describes an error of this kind.
    pub fn description(&self) -> (r: &'static str)
        ensures
            r@ == self.spec_description(),
    {
        match self {
            OrderError::MissingTokenId => "Unable to build Order due to missing token ID",
            OrderError::MissingSide => "Unable to build Order due to missing token side",
            OrderError::MissingPrice => "Unable to build Order due to missing price",
            OrderError::MissingSize => "Unable to build Order due to missing size",
            OrderError::MissingAmount => "Unable to build Order due to missing amount",
            OrderError::NegativePrice { .. } => "Unable to build Order due to negative price",
            OrderError::PriceTooPrecise { .. } => "Unable to build Order: Price has more decimal places than the minimum tick size",
            OrderError::PriceOutOfRange { .. } => "Price is too small or too large for the minimum tick size",
            OrderError::SizeTooPrecise { .. } => "Unable to build Order: Size has more decimal places than the maximum lot size",
            OrderError::NonPositiveSize { .. } => "Unable to build Order due to negative size",
            OrderError::ExpirationRequiresGtd => "Only GTD orders may have a non-zero expiration",
            OrderError::PostOnlyRequiresResting => "postOnly is only supported for GTC and GTD orders",
            OrderError::PostOnlyOnMarketOrder => "postOnly is only supported for limit orders",
            OrderError::MarketOrderTypeNotImmediate => "Cannot set an order type other than FAK/FOK for a market order",
            OrderError::V2MarketOrderTypeNotImmediate => "V2 market orders must use FOK or FAK order type",
            OrderError::InvalidSide { .. } => "Invalid side",
            OrderError::ExpirationNotRepresentable { .. } => "Unable to represent expiration as a u64",
            OrderError::SellAmountInUsdc => "Sell Orders must specify their `amount`s in shares",
            OrderError::NoOpposingOrders { .. } => "No opposing orders, which means there is no market price",
            OrderError::InsufficientLiquidity { .. } => "Insufficient liquidity to fill order",
            OrderError::MakerAmountOverflow => "maker_amount overflow",
            OrderError::NonPositiveMarketSize { .. } => "Unable to build market order due to zero/negative size",
            OrderError::SignatureTypeNotImplemented => "EIP-1271 smart-contract signing not implemented (SignatureType::Poly1271)",
        }
    }
}

} // verus!
