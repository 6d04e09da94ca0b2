//! Plain data shared by the REST and WebSocket layers.

use crate::decimal::Decimal;
use vstd::prelude::*;

verus! {

pub type Id = u64;

pub type Coin = String;

pub type Symbol = String;

/// A point in time: whole seconds since the Unix epoch and nanoseconds past
/// that second.
#[derive(Clone, Copy, Debug, PartialEq, Eq, Structural)]
pub struct Timestamp {
    pub seconds: i64,
    pub nanos: u32,
}

#[derive(Clone, Copy, Debug, PartialEq, Eq, Structural)]
pub enum Side {
    Buy,
    Sell,
}

impl Default for Side {
    fn default() -> (r: Side)
        ensures
            r == Side::Buy,
    {
        Side::Buy
    }
}

#[derive(Clone, Copy, Debug, PartialEq, Eq, Structural)]
pub enum OrderType {
    Market,
    Limit,
    Stop,
    TrailingStop,
    TakeProfit,
}

impl Default for OrderType {
    fn default() -> (r: OrderType)
        ensures
            r == OrderType::Market,
    {
        OrderType::Market
    }
}

/// The status of an order. REST reports `New` once the order is queued;
/// the orders channel reports `New` once it is processed and resting, and
/// `Closed` once it is filled, rejected or cancelled.
#[derive(Clone, Copy, Debug, PartialEq, Eq, Structural)]
pub enum OrderStatus {
    New,
    Open,
    Closed,
}

#[derive(Clone, Copy, Debug, PartialEq, Eq, Structural)]
pub enum FutureType {
    Future,
    Perpetual,
    Prediction,
    Move,
}

#[derive(Clone, Copy, Debug, PartialEq, Eq, Structural)]
pub enum DepositStatus {
    Confirmed,
    Unconfirmed,
    Cancelled,
    Complete,
    Initiated,
}

#[derive(Clone, Copy, Debug, PartialEq, Eq, Structural)]
pub enum MarketType {
    Future,
    Spot,
}

#[derive(Clone, Copy, Debug, PartialEq, Eq, Structural)]
pub enum WithdrawStatus {
    Requested,
    Processing,
    Sent,
    Complete,
    Cancelled,
}

/// A trade on a market.
#[derive(Clone, Copy, Debug)]
pub struct Trade {
    pub id: Id,
    pub liquidation: bool,
    pub price: Decimal,
    pub side: Side,
    pub size: Decimal,
    pub time: Timestamp,
}

/// An order as the exchange reports it.
#[derive(Clone, Debug)]
pub struct OrderInfo {
    pub id: Id,
    pub market: String,
    pub future: Option<String>,
    pub order_type: OrderType,
    pub side: Side,
    /// `None` for a new market order.
    pub price: Option<Decimal>,
    pub size: Decimal,
    pub reduce_only: Option<bool>,
    pub ioc: Option<bool>,
    pub post_only: Option<bool>,
    pub status: OrderStatus,
    pub filled_size: Option<Decimal>,
    pub remaining_size: Option<Decimal>,
    pub avg_fill_price: Option<Decimal>,
    pub liquidation: Option<bool>,
    pub created_at: Timestamp,
    pub client_id: Option<String>,
    pub retry_until_filled: Option<bool>,
    pub trigger_price: Option<Decimal>,
    pub order_price: Option<Decimal>,
    pub triggered_at: Option<String>,
    pub error: Option<String>,
}

/// The width of a candle.
#[derive(Clone, Copy, Debug, PartialEq, Eq, Structural)]
pub enum Resolution {
    FifteenSeconds,
    Minute,
    FiveMinutes,
    FifteenMinutes,
    Hour,
    FourHours,
    Day,
    TwoDays,
    ThreeDays,
    FourDays,
    FiveDays,
    SixDays,
    Week,
    EightDays,
    NineDays,
    TenDays,
    ElevenDays,
    TwelveDays,
    ThirteenDays,
    FourteenDays,
    FifteenDays,
    SixteenDays,
    SeventeenDays,
    EighteenDays,
    NineteenDays,
    TwentyDays,
    TwentyOneDays,
    TwentyTwoDays,
    TwentyThreeDays,
    TwentyFourDays,
    TwentyFiveDays,
    TwentySixDays,
    TwentySevenDays,
    TwentyEightDays,
    TwentyNineDays,
    ThirtyDays,
}

/// The width of a candle in seconds. Thirty days is not a month.
pub open spec fn resolution_seconds(r: Resolution) -> nat {
    match r {
        Resolution::FifteenSeconds => 15,
        Resolution::Minute => 60,
        Resolution::FiveMinutes => 300,
        Resolution::FifteenMinutes => 900,
        Resolution::Hour => 3600,
        Resolution::FourHours => 14400,
        Resolution::Day => 86400,
        Resolution::TwoDays => 86400 * 2,
        Resolution::ThreeDays => 86400 * 3,
        Resolution::FourDays => 86400 * 4,
        Resolution::FiveDays => 86400 * 5,
        Resolution::SixDays => 86400 * 6,
        Resolution::Week => 86400 * 7,
        Resolution::EightDays => 86400 * 8,
        Resolution::NineDays => 86400 * 9,
        Resolution::TenDays => 86400 * 10,
        Resolution::ElevenDays => 86400 * 11,
        Resolution::TwelveDays => 86400 * 12,
        Resolution::ThirteenDays => 86400 * 13,
        Resolution::FourteenDays => 86400 * 14,
        Resolution::FifteenDays => 86400 * 15,
        Resolution::SixteenDays => 86400 * 16,
        Resolution::SeventeenDays => 86400 * 17,
        Resolution::EighteenDays => 86400 * 18,
        Resolution::NineteenDays => 86400 * 19,
        Resolution::TwentyDays => 86400 * 20,
        Resolution::TwentyOneDays => 86400 * 21,
        Resolution::TwentyTwoDays => 86400 * 22,
        Resolution::TwentyThreeDays => 86400 * 23,
        Resolution::TwentyFourDays => 86400 * 24,
        Resolution::TwentyFiveDays => 86400 * 25,
        Resolution::TwentySixDays => 86400 * 26,
        Resolution::TwentySevenDays => 86400 * 27,
        Resolution::TwentyEightDays => 86400 * 28,
        Resolution::TwentyNineDays => 86400 * 29,
        Resolution::ThirtyDays => 86400 * 30,
    }
}

impl Resolution {
    /// The width in seconds.
    pub fn get_seconds(&self) -> (r: u32)
        ensures
            r == resolution_seconds(*self),
    {
        match self {
            Resolution::FifteenSeconds => 15,
            Resolution::Minute => 60,
            Resolution::FiveMinutes => 300,
            Resolution::FifteenMinutes => 900,
            Resolution::Hour => 3600,
            Resolution::FourHours => 14400,
            Resolution::Day => 86400,
            Resolution::TwoDays => 86400 * 2,
            Resolution::ThreeDays => 86400 * 3,
            Resolution::FourDays => 86400 * 4,
            Resolution::FiveDays => 86400 * 5,
            Resolution::SixDays => 86400 * 6,
            Resolution::Week => 86400 * 7,
            Resolution::EightDays => 86400 * 8,
            Resolution::NineDays => 86400 * 9,
            Resolution::TenDays => 86400 * 10,
            Resolution::ElevenDays => 86400 * 11,
            Resolution::TwelveDays => 86400 * 12,
            Resolution::ThirteenDays => 86400 * 13,
            Resolution::FourteenDays => 86400 * 14,
            Resolution::FifteenDays => 86400 * 15,
            Resolution::SixteenDays => 86400 * 16,
            Resolution::SeventeenDays => 86400 * 17,
            Resolution::EighteenDays => 86400 * 18,
            Resolution::NineteenDays => 86400 * 19,
            Resolution::TwentyDays => 86400 * 20,
            Resolution::TwentyOneDays => 86400 * 21,
            Resolution::TwentyTwoDays => 86400 * 22,
            Resolution::TwentyThreeDays => 86400 * 23,
            Resolution::TwentyFourDays => 86400 * 24,
            Resolution::TwentyFiveDays => 86400 * 25,
            Resolution::TwentySixDays => 86400 * 26,
            Resolution::TwentySevenDays => 86400 * 27,
            Resolution::TwentyEightDays => 86400 * 28,
            Resolution::TwentyNineDays => 86400 * 29,
            Resolution::ThirtyDays => 86400 * 30,
        }
    }
}

} // verus!
