//! The request catalog: for each endpoint, the fields it takes and where it
//! is sent. Query and body encodings of the fields are made by the caller;
//! the dispatcher in `rest` signs and frames them.

use crate::decimal::Decimal;
use crate::model::{OrderType, Resolution, Side, resolution_seconds};
use crate::decimal::decimal_text;
use crate::rest::{Method, decimal_string};
use vstd::prelude::*;

verus! {

/// Where and how a request is sent.
#[derive(Debug)]
pub struct Descriptor {
    pub method: Method,
    /// The path below the API root, with any identifiers filled in.
    pub path: String,
    /// Whether the request must be signed.
    pub auth: bool,
}

/// Lists the subaccounts.
#[derive(Clone, Debug)]
pub struct GetSubaccounts {}

impl GetSubaccounts {
    /// The method, path and signing requirement of this request.
    pub fn descriptor(&self) -> (r: Descriptor)
        ensures
            r.method == Method::Get,
            r.auth == true,
            r.path@ == "/subaccounts"@,
    {
        Descriptor { method: Method::Get, path: String::from_str("/subaccounts"), auth: true }
    }
}

/// Creates a subaccount.
#[derive(Clone, Debug)]
pub struct CreateSubaccount {
    pub nickname: String,
}

impl CreateSubaccount {
    pub fn new(nickname: &str) -> (r: CreateSubaccount)
        ensures
            r.nickname@ == nickname@,
    {
        CreateSubaccount { nickname: String::from_str(nickname) }
    }

    /// The method, path and signing requirement of this request.
    pub fn descriptor(&self) -> (r: Descriptor)
        ensures
            r.method == Method::Post,
            r.auth == true,
            r.path@ == "/subaccounts"@,
    {
        Descriptor { method: Method::Post, path: String::from_str("/subaccounts"), auth: true }
    }
}

/// Renames a subaccount.
#[derive(Clone, Debug)]
pub struct ChangeSubaccountName {
    pub nickname: String,
    pub new_nickname: String,
}

impl ChangeSubaccountName {
    pub fn new(nickname: &str, new_nickname: &str) -> (r: ChangeSubaccountName)
        ensures
            r.nickname@ == nickname@,
            r.new_nickname@ == new_nickname@,
    {
        ChangeSubaccountName { nickname: String::from_str(nickname), new_nickname: String::from_str(new_nickname) }
    }

    /// The method, path and signing requirement of this request.
    pub fn descriptor(&self) -> (r: Descriptor)
        ensures
            r.method == Method::Post,
            r.auth == true,
            r.path@ == "/subaccounts/update_name"@,
    {
        Descriptor { method: Method::Post, path: String::from_str("/subaccounts/update_name"), auth: true }
    }
}

/// Deletes a subaccount.
#[derive(Clone, Debug)]
pub struct DeleteSubaccount {
    pub nickname: String,
}

impl DeleteSubaccount {
    pub fn new(nickname: &str) -> (r: DeleteSubaccount)
        ensures
            r.nickname@ == nickname@,
    {
        DeleteSubaccount { nickname: String::from_str(nickname) }
    }

    /// The method, path and signing requirement of this request.
    pub fn descriptor(&self) -> (r: Descriptor)
        ensures
            r.method == Method::Delete,
            r.auth == true,
            r.path@ == "/subaccounts"@,
    {
        Descriptor { method: Method::Delete, path: String::from_str("/subaccounts"), auth: true }
    }
}

/// The balances of a subaccount.
#[derive(Clone, Debug)]
pub struct GetSubaccountBalances {
    pub nickname: String,
}

impl GetSubaccountBalances {
    pub fn new(nickname: &str) -> (r: GetSubaccountBalances)
        ensures
            r.nickname@ == nickname@,
    {
        GetSubaccountBalances { nickname: String::from_str(nickname) }
    }

    /// The method, path and signing requirement of this request.
    pub fn descriptor(&self) -> (r: Descriptor)
        ensures
            r.method == Method::Get,
            r.auth == true,
            r.path@ == "/subaccounts/"@ + self.nickname@ + "/balances"@,
    {
        proof {
            reveal_strlit("/subaccounts/");
            reveal_strlit("/balances");
        }
        let mut path = String::from_str("/subaccounts/");
        path.append(self.nickname.as_str());
        path.append("/balances");
        Descriptor { method: Method::Get, path, auth: true }
    }
}

/// Moves funds between subaccounts.
#[derive(Clone, Debug)]
pub struct TransferBetweenSubaccounts {
    pub coin: String,
    pub size: Decimal,
    pub source: String,
    pub destination: String,
}

impl TransferBetweenSubaccounts {
    pub fn new(coin: &str, size: Decimal, source: &str, destination: &str) -> (r: TransferBetweenSubaccounts)
        ensures
            r.coin@ == coin@,
            r.size == size,
            r.source@ == source@,
            r.destination@ == destination@,
    {
        TransferBetweenSubaccounts { coin: String::from_str(coin), size, source: String::from_str(source), destination: String::from_str(destination) }
    }

    /// The method, path and signing requirement of this request.
    pub fn descriptor(&self) -> (r: Descriptor)
        ensures
            r.method == Method::Post,
            r.auth == true,
            r.path@ == "/subaccounts/transfer"@,
    {
        Descriptor { method: Method::Post, path: String::from_str("/subaccounts/transfer"), auth: true }
    }
}

/// Lists the markets.
#[derive(Clone, Debug)]
pub struct GetMarkets {}

impl GetMarkets {
    /// The method, path and signing requirement of this request.
    pub fn descriptor(&self) -> (r: Descriptor)
        ensures
            r.method == Method::Get,
            r.auth == false,
            r.path@ == "/markets"@,
    {
        Descriptor { method: Method::Get, path: String::from_str("/markets"), auth: false }
    }
}

/// One market.
#[derive(Clone, Debug)]
pub struct GetMarket {
    pub market_name: String,
}

impl GetMarket {
    pub fn new(market_name: &str) -> (r: GetMarket)
        ensures
            r.market_name@ == market_name@,
    {
        GetMarket { market_name: String::from_str(market_name) }
    }

    /// The method, path and signing requirement of this request.
    pub fn descriptor(&self) -> (r: Descriptor)
        ensures
            r.method == Method::Get,
            r.auth == false,
            r.path@ == "/markets/"@ + self.market_name@,
    {
        proof {
            reveal_strlit("/markets/");
        }
        let mut path = String::from_str("/markets/");
        path.append(self.market_name.as_str());
        Descriptor { method: Method::Get, path, auth: false }
    }
}

/// The order book of a market, to an optional depth.
#[derive(Clone, Debug)]
pub struct GetOrderBook {
    pub market_name: String,
    pub depth: Option<u32>,
}

impl GetOrderBook {
    pub fn new(market_name: &str) -> (r: GetOrderBook)
        ensures
            r.market_name@ == market_name@,
            r.depth is None,
    {
        GetOrderBook { market_name: String::from_str(market_name), depth: None }
    }

    pub fn with_depth(market_name: &str, depth: u32) -> (r: GetOrderBook)
        ensures
            r.market_name@ == market_name@,
            r.depth == Some(depth),
    {
        GetOrderBook { market_name: String::from_str(market_name), depth: Some(depth) }
    }

    /// The method, path and signing requirement of this request.
    pub fn descriptor(&self) -> (r: Descriptor)
        ensures
            r.method == Method::Get,
            r.auth == false,
            r.path@ == "/markets/"@ + self.market_name@ + "/orderbook"@,
    {
        proof {
            reveal_strlit("/markets/");
            reveal_strlit("/orderbook");
        }
        let mut path = String::from_str("/markets/");
        path.append(self.market_name.as_str());
        path.append("/orderbook");
        Descriptor { method: Method::Get, path, auth: false }
    }
}

/// Recent trades of a market; times in seconds since the epoch.
#[derive(Clone, Debug)]
pub struct GetTrades {
    pub market_name: String,
    pub limit: Option<u32>,
    pub start_time: Option<i64>,
    pub end_time: Option<i64>,
}

impl GetTrades {
    pub fn new(market_name: &str) -> (r: GetTrades)
        ensures
            r.market_name@ == market_name@,
            r.limit is None,
            r.start_time is None,
            r.end_time is None,
    {
        GetTrades { market_name: String::from_str(market_name), limit: None, start_time: None, end_time: None }
    }

    pub fn new_paged(market_name: &str, limit: Option<u32>, start_time: Option<i64>, end_time: Option<i64>) -> (r: GetTrades)
        ensures
            r.market_name@ == market_name@,
            r.limit == limit,
            r.start_time == start_time,
            r.end_time == end_time,
    {
        GetTrades { market_name: String::from_str(market_name), limit, start_time, end_time }
    }

    /// The method, path and signing requirement of this request.
    pub fn descriptor(&self) -> (r: Descriptor)
        ensures
            r.method == Method::Get,
            r.auth == false,
            r.path@ == "/markets/"@ + self.market_name@ + "/trades"@,
    {
        proof {
            reveal_strlit("/markets/");
            reveal_strlit("/trades");
        }
        let mut path = String::from_str("/markets/");
        path.append(self.market_name.as_str());
        path.append("/trades");
        Descriptor { method: Method::Get, path, auth: false }
    }
}

/// Candles of a market; the resolution in seconds.
#[derive(Clone, Debug)]
pub struct GetHistoricalPrices {
    pub market_name: String,
    pub resolution: u32,
    pub limit: Option<u32>,
    pub start_time: Option<i64>,
    pub end_time: Option<i64>,
}

impl GetHistoricalPrices {
    pub fn new(market_name: &str, resolution: Resolution) -> (r: GetHistoricalPrices)
        ensures
            r.market_name@ == market_name@,
            r.resolution == resolution_seconds(resolution),
            r.limit is None,
            r.start_time is None,
            r.end_time is None,
    {
        GetHistoricalPrices { market_name: String::from_str(market_name), resolution: resolution.get_seconds(), limit: None, start_time: None, end_time: None }
    }

    pub fn new_paged(market_name: &str, resolution: Resolution, limit: Option<u32>, start_time: Option<i64>, end_time: Option<i64>) -> (r: GetHistoricalPrices)
        ensures
            r.market_name@ == market_name@,
            r.resolution == resolution_seconds(resolution),
            r.limit == limit,
            r.start_time == start_time,
            r.end_time == end_time,
    {
        GetHistoricalPrices { market_name: String::from_str(market_name), resolution: resolution.get_seconds(), limit, start_time, end_time }
    }

    /// The method, path and signing requirement of this request.
    pub fn descriptor(&self) -> (r: Descriptor)
        ensures
            r.method == Method::Get,
            r.auth == false,
            r.path@ == "/markets/"@ + self.market_name@ + "/candles"@,
    {
        proof {
            reveal_strlit("/markets/");
            reveal_strlit("/candles");
        }
        let mut path = String::from_str("/markets/");
        path.append(self.market_name.as_str());
        path.append("/candles");
        Descriptor { method: Method::Get, path, auth: false }
    }
}

/// Lists the futures.
#[derive(Clone, Debug)]
pub struct GetFutures {}

impl GetFutures {
    /// The method, path and signing requirement of this request.
    pub fn descriptor(&self) -> (r: Descriptor)
        ensures
            r.method == Method::Get,
            r.auth == false,
            r.path@ == "/futures"@,
    {
        Descriptor { method: Method::Get, path: String::from_str("/futures"), auth: false }
    }
}

/// One future.
#[derive(Clone, Debug)]
pub struct GetFuture {
    pub future_name: String,
}

impl GetFuture {
    pub fn new(future_name: &str) -> (r: GetFuture)
        ensures
            r.future_name@ == future_name@,
    {
        GetFuture { future_name: String::from_str(future_name) }
    }

    /// The method, path and signing requirement of this request.
    pub fn descriptor(&self) -> (r: Descriptor)
        ensures
            r.method == Method::Get,
            r.auth == false,
            r.path@ == "/futures/"@ + self.future_name@,
    {
        proof {
            reveal_strlit("/futures/");
        }
        let mut path = String::from_str("/futures/");
        path.append(self.future_name.as_str());
        Descriptor { method: Method::Get, path, auth: false }
    }
}

/// The statistics of a future.
#[derive(Clone, Debug)]
pub struct GetFutureStats {
    pub future_name: String,
}

impl GetFutureStats {
    /// The method, path and signing requirement of this request.
    pub fn descriptor(&self) -> (r: Descriptor)
        ensures
            r.method == Method::Get,
            r.auth == false,
            r.path@ == "/futures/"@ + self.future_name@ + "/stats"@,
    {
        proof {
            reveal_strlit("/futures/");
            reveal_strlit("/stats");
        }
        let mut path = String::from_str("/futures/");
        path.append(self.future_name.as_str());
        path.append("/stats");
        Descriptor { method: Method::Get, path, auth: false }
    }
}

/// Lists the expired futures.
#[derive(Clone, Debug)]
pub struct GetExpiredFutures {}

impl GetExpiredFutures {
    /// The method, path and signing requirement of this request.
    pub fn descriptor(&self) -> (r: Descriptor)
        ensures
            r.method == Method::Get,
            r.auth == false,
            r.path@ == "/expired_futures"@,
    {
        Descriptor { method: Method::Get, path: String::from_str("/expired_futures"), auth: false }
    }
}

/// Funding rates, of one future or all.
#[derive(Clone, Debug)]
pub struct GetFundingRates {
    pub future: Option<String>,
    pub start_time: Option<i64>,
    pub end_time: Option<i64>,
}

impl GetFundingRates {
    pub fn new() -> (r: GetFundingRates)
        ensures
            r.future is None,
            r.start_time is None,
            r.end_time is None,
    {
        GetFundingRates { future: None, start_time: None, end_time: None }
    }

    pub fn new_paged(future: Option<String>, start_time: Option<i64>, end_time: Option<i64>) -> (r: GetFundingRates)
        ensures
            r.future == future,
            r.start_time == start_time,
            r.end_time == end_time,
    {
        GetFundingRates { future, start_time, end_time }
    }

    /// The method, path and signing requirement of this request.
    pub fn descriptor(&self) -> (r: Descriptor)
        ensures
            r.method == Method::Get,
            r.auth == false,
            r.path@ == "/funding_rates"@,
    {
        Descriptor { method: Method::Get, path: String::from_str("/funding_rates"), auth: false }
    }
}

/// The weights of an index.
#[derive(Clone, Debug)]
pub struct GetIndexWeights {
    pub index: String,
}

impl GetIndexWeights {
    pub fn new(index: &str) -> (r: GetIndexWeights)
        ensures
            r.index@ == index@,
    {
        GetIndexWeights { index: String::from_str(index) }
    }

    /// The method, path and signing requirement of this request.
    pub fn descriptor(&self) -> (r: Descriptor)
        ensures
            r.method == Method::Get,
            r.auth == false,
            r.path@ == "/indexes/"@ + self.index@ + "/weights"@,
    {
        proof {
            reveal_strlit("/indexes/");
            reveal_strlit("/weights");
        }
        let mut path = String::from_str("/indexes/");
        path.append(self.index.as_str());
        path.append("/weights");
        Descriptor { method: Method::Get, path, auth: false }
    }
}

/// Candles of an index.
#[derive(Clone, Debug)]
pub struct GetHistoricalIndex {
    pub market_name: String,
    pub resolution: u32,
    pub start_time: Option<i64>,
    pub end_time: Option<i64>,
}

impl GetHistoricalIndex {
    pub fn new(market_name: &str, resolution: Resolution) -> (r: GetHistoricalIndex)
        ensures
            r.market_name@ == market_name@,
            r.resolution == resolution_seconds(resolution),
            r.start_time is None,
            r.end_time is None,
    {
        GetHistoricalIndex { market_name: String::from_str(market_name), resolution: resolution.get_seconds(), start_time: None, end_time: None }
    }

    pub fn new_paged(market_name: &str, resolution: Resolution, start_time: Option<i64>, end_time: Option<i64>) -> (r: GetHistoricalIndex)
        ensures
            r.market_name@ == market_name@,
            r.resolution == resolution_seconds(resolution),
            r.start_time == start_time,
            r.end_time == end_time,
    {
        GetHistoricalIndex { market_name: String::from_str(market_name), resolution: resolution.get_seconds(), start_time, end_time }
    }

    /// The method, path and signing requirement of this request.
    pub fn descriptor(&self) -> (r: Descriptor)
        ensures
            r.method == Method::Get,
            r.auth == false,
            r.path@ == "/indexes/"@ + self.market_name@ + "/candles"@,
    {
        proof {
            reveal_strlit("/indexes/");
            reveal_strlit("/candles");
        }
        let mut path = String::from_str("/indexes/");
        path.append(self.market_name.as_str());
        path.append("/candles");
        Descriptor { method: Method::Get, path, auth: false }
    }
}

/// The account.
#[derive(Clone, Debug)]
pub struct GetAccount {}

impl GetAccount {
    /// The method, path and signing requirement of this request.
    pub fn descriptor(&self) -> (r: Descriptor)
        ensures
            r.method == Method::Get,
            r.auth == true,
            r.path@ == "/account"@,
    {
        Descriptor { method: Method::Get, path: String::from_str("/account"), auth: true }
    }
}

/// Sets the account's leverage.
#[derive(Clone, Debug)]
pub struct ChangeAccountLeverage {
    pub leverage: u32,
}

impl ChangeAccountLeverage {
    pub fn new(leverage: u32) -> (r: ChangeAccountLeverage)
        ensures
            r.leverage == leverage,
    {
        ChangeAccountLeverage { leverage }
    }

    /// The method, path and signing requirement of this request.
    pub fn descriptor(&self) -> (r: Descriptor)
        ensures
            r.method == Method::Post,
            r.auth == true,
            r.path@ == "/account/leverage"@,
    {
        Descriptor { method: Method::Post, path: String::from_str("/account/leverage"), auth: true }
    }
}

/// The open positions.
#[derive(Clone, Debug)]
pub struct GetPositions {}

impl GetPositions {
    /// The method, path and signing requirement of this request.
    pub fn descriptor(&self) -> (r: Descriptor)
        ensures
            r.method == Method::Get,
            r.auth == true,
            r.path@ == "/positions"@,
    {
        Descriptor { method: Method::Get, path: String::from_str("/positions"), auth: true }
    }
}

/// The coins of the exchange.
#[derive(Clone, Debug)]
pub struct GetCoins {}

impl GetCoins {
    /// The method, path and signing requirement of this request.
    pub fn descriptor(&self) -> (r: Descriptor)
        ensures
            r.method == Method::Get,
            r.auth == false,
            r.path@ == "/wallet/coins"@,
    {
        Descriptor { method: Method::Get, path: String::from_str("/wallet/coins"), auth: false }
    }
}

/// The wallet's balances.
#[derive(Clone, Debug)]
pub struct GetWalletBalances {}

impl GetWalletBalances {
    /// The method, path and signing requirement of this request.
    pub fn descriptor(&self) -> (r: Descriptor)
        ensures
            r.method == Method::Get,
            r.auth == true,
            r.path@ == "/wallet/balances"@,
    {
        Descriptor { method: Method::Get, path: String::from_str("/wallet/balances"), auth: true }
    }
}

/// Deposits to the wallet.
#[derive(Clone, Debug)]
pub struct GetWalletDeposits {
    pub limit: Option<u64>,
    pub start_time: Option<i64>,
    pub end_time: Option<i64>,
}

impl GetWalletDeposits {
    /// The method, path and signing requirement of this request.
    pub fn descriptor(&self) -> (r: Descriptor)
        ensures
            r.method == Method::Get,
            r.auth == true,
            r.path@ == "/wallet/deposits"@,
    {
        Descriptor { method: Method::Get, path: String::from_str("/wallet/deposits"), auth: true }
    }
}

/// Withdrawals from the wallet.
#[derive(Clone, Debug)]
pub struct GetWalletWithdrawals {
    pub limit: Option<u64>,
    pub start_time: Option<i64>,
    pub end_time: Option<i64>,
}

impl GetWalletWithdrawals {
    /// The method, path and signing requirement of this request.
    pub fn descriptor(&self) -> (r: Descriptor)
        ensures
            r.method == Method::Get,
            r.auth == true,
            r.path@ == "/wallet/withdrawals"@,
    {
        Descriptor { method: Method::Get, path: String::from_str("/wallet/withdrawals"), auth: true }
    }
}

/// The deposit address of a coin.
#[derive(Clone, Debug)]
pub struct GetWalletDepositAddress {
    pub coin: String,
    pub method: Option<String>,
}

impl GetWalletDepositAddress {
    pub fn new(coin: &str) -> (r: GetWalletDepositAddress)
        ensures
            r.coin@ == coin@,
            r.method is None,
    {
        GetWalletDepositAddress { coin: String::from_str(coin), method: None }
    }

    pub fn with_method(coin: &str, method: &str) -> (r: GetWalletDepositAddress)
        ensures
            r.coin@ == coin@,
            r.method matches Some(m) && m@ == method@,
    {
        GetWalletDepositAddress { coin: String::from_str(coin), method: Some(String::from_str(method)) }
    }

    /// The method, path and signing requirement of this request.
    pub fn descriptor(&self) -> (r: Descriptor)
        ensures
            r.method == Method::Get,
            r.auth == true,
            r.path@ == "/wallet/deposit_address/"@ + self.coin@,
    {
        proof {
            reveal_strlit("/wallet/deposit_address/");
        }
        let mut path = String::from_str("/wallet/deposit_address/");
        path.append(self.coin.as_str());
        Descriptor { method: Method::Get, path, auth: true }
    }
}

/// Asks for a withdrawal.
#[derive(Clone, Debug)]
pub struct RequestWithdrawal {
    pub coin: String,
    pub size: Decimal,
    pub address: String,
    pub tag: Option<String>,
    pub method: Option<String>,
    pub password: Option<String>,
    pub code: Option<String>,
}

impl RequestWithdrawal {
    /// The method, path and signing requirement of this request.
    pub fn descriptor(&self) -> (r: Descriptor)
        ensures
            r.method == Method::Post,
            r.auth == true,
            r.path@ == "/wallet/withdrawals"@,
    {
        Descriptor { method: Method::Post, path: String::from_str("/wallet/withdrawals"), auth: true }
    }
}

/// Saves a withdrawal address.
#[derive(Clone, Debug)]
pub struct CreateSavedAddress {
    pub coin: String,
    pub address: String,
    pub wallet: String,
    pub address_name: String,
    pub is_primetrust: bool,
    pub tag: Option<String>,
    pub whitelist: bool,
    pub code: Option<String>,
}

impl CreateSavedAddress {
    /// The method, path and signing requirement of this request.
    pub fn descriptor(&self) -> (r: Descriptor)
        ensures
            r.method == Method::Post,
            r.auth == true,
            r.path@ == "/wallet/saved_addresses"@,
    {
        Descriptor { method: Method::Post, path: String::from_str("/wallet/saved_addresses"), auth: true }
    }
}

/// The saved addresses of a coin.
#[derive(Clone, Debug)]
pub struct GetSavedAddresses {
    pub coin: String,
}

impl GetSavedAddresses {
    /// The method, path and signing requirement of this request.
    pub fn descriptor(&self) -> (r: Descriptor)
        ensures
            r.method == Method::Get,
            r.auth == true,
            r.path@ == "/wallet/saved_addresses"@,
    {
        Descriptor { method: Method::Get, path: String::from_str("/wallet/saved_addresses"), auth: true }
    }
}

/// Deletes a saved address.
#[derive(Clone, Debug)]
pub struct DeleteSavedAddress {
    pub saved_address_id: u64,
}

impl DeleteSavedAddress {
    /// The method, path and signing requirement of this request.
    pub fn descriptor(&self) -> (r: Descriptor)
        ensures
            r.method == Method::Delete,
            r.auth == true,
            r.path@ == "/wallet/saved_addresses/"@ + decimal_text(self.saved_address_id as nat),
    {
        proof {
            reveal_strlit("/wallet/saved_addresses/");
        }
        let mut path = String::from_str("/wallet/saved_addresses/");
        let id = decimal_string(self.saved_address_id);
        path.append(id.as_str());
        Descriptor { method: Method::Delete, path, auth: true }
    }
}

/// The open orders, of one market or all.
#[derive(Clone, Debug)]
pub struct GetOpenOrders {
    pub market: Option<String>,
}

impl GetOpenOrders {
    pub fn all_market() -> (r: GetOpenOrders)
        ensures
            r.market is None,
    {
        GetOpenOrders { market: None }
    }

    pub fn with_market(market: &str) -> (r: GetOpenOrders)
        ensures
            r.market matches Some(m) && m@ == market@,
    {
        GetOpenOrders { market: Some(String::from_str(market)) }
    }

    /// The method, path and signing requirement of this request.
    pub fn descriptor(&self) -> (r: Descriptor)
        ensures
            r.method == Method::Get,
            r.auth == true,
            r.path@ == "/orders"@,
    {
        Descriptor { method: Method::Get, path: String::from_str("/orders"), auth: true }
    }
}

/// Past orders.
#[derive(Clone, Debug)]
pub struct GetOrderHistory {
    pub market: Option<String>,
    pub side: Option<Side>,
    pub limit: Option<u64>,
    pub start_time: Option<i64>,
    pub end_time: Option<i64>,
}

impl GetOrderHistory {
    /// The method, path and signing requirement of this request.
    pub fn descriptor(&self) -> (r: Descriptor)
        ensures
            r.method == Method::Get,
            r.auth == true,
            r.path@ == "/orders/history"@,
    {
        Descriptor { method: Method::Get, path: String::from_str("/orders/history"), auth: true }
    }
}

/// Places an order. The price of a market order is sent as null.
#[derive(Clone, Debug)]
pub struct PlaceOrder {
    pub market: String,
    pub side: Side,
    pub price: Option<Decimal>,
    pub order_type: OrderType,
    pub size: Decimal,
    pub reduce_only: bool,
    pub ioc: bool,
    pub post_only: bool,
    pub client_id: Option<String>,
    pub reject_on_price_band: bool,
}

impl PlaceOrder {
    /// The method, path and signing requirement of this request.
    pub fn descriptor(&self) -> (r: Descriptor)
        ensures
            r.method == Method::Post,
            r.auth == true,
            r.path@ == "/orders"@,
    {
        Descriptor { method: Method::Post, path: String::from_str("/orders"), auth: true }
    }
}

/// Places a trigger order.
#[derive(Clone, Debug)]
pub struct PlaceTriggerOrder {
    pub market: String,
    pub side: Side,
    pub size: Decimal,
    pub order_type: OrderType,
    pub trigger_price: Decimal,
    pub reduce_only: Option<bool>,
    pub retry_until_filled: Option<bool>,
    pub order_price: Option<Decimal>,
    pub trail_value: Option<Decimal>,
}

impl PlaceTriggerOrder {
    /// The method, path and signing requirement of this request.
    pub fn descriptor(&self) -> (r: Descriptor)
        ensures
            r.method == Method::Post,
            r.auth == true,
            r.path@ == "/conditional_orders"@,
    {
        Descriptor { method: Method::Post, path: String::from_str("/conditional_orders"), auth: true }
    }
}

/// Modifies an order: the exchange cancels it and places a new one.
#[derive(Clone, Debug)]
pub struct ModifyOrder {
    pub id: u64,
    pub price: Option<Decimal>,
    pub size: Option<Decimal>,
    pub client_id: Option<String>,
}

impl ModifyOrder {
    /// The method, path and signing requirement of this request.
    pub fn descriptor(&self) -> (r: Descriptor)
        ensures
            r.method == Method::Post,
            r.auth == true,
            r.path@ == "/orders/"@ + decimal_text(self.id as nat) + "/modify"@,
    {
        proof {
            reveal_strlit("/orders/");
            reveal_strlit("/modify");
        }
        let mut path = String::from_str("/orders/");
        let id = decimal_string(self.id);
        path.append(id.as_str());
        path.append("/modify");
        Descriptor { method: Method::Post, path, auth: true }
    }
}

/// Modifies an order known by its client id.
#[derive(Clone, Debug)]
pub struct ModifyOrderByClientId {
    pub client_id: String,
    pub price: Option<Decimal>,
    pub size: Option<Decimal>,
}

impl ModifyOrderByClientId {
    /// The method, path and signing requirement of this request.
    pub fn descriptor(&self) -> (r: Descriptor)
        ensures
            r.method == Method::Post,
            r.auth == true,
            r.path@ == "/orders/by_client_id/"@ + self.client_id@ + "/modify"@,
    {
        proof {
            reveal_strlit("/orders/by_client_id/");
            reveal_strlit("/modify");
        }
        let mut path = String::from_str("/orders/by_client_id/");
        path.append(self.client_id.as_str());
        path.append("/modify");
        Descriptor { method: Method::Post, path, auth: true }
    }
}

/// One order.
#[derive(Clone, Debug)]
pub struct GetOrder {
    pub id: u64,
}

impl GetOrder {
    pub fn new(order_id: u64) -> (r: GetOrder)
        ensures
            r.id == order_id,
    {
        GetOrder { id: order_id }
    }

    /// The method, path and signing requirement of this request.
    pub fn descriptor(&self) -> (r: Descriptor)
        ensures
            r.method == Method::Get,
            r.auth == true,
            r.path@ == "/orders/"@ + decimal_text(self.id as nat),
    {
        proof {
            reveal_strlit("/orders/");
        }
        let mut path = String::from_str("/orders/");
        let id = decimal_string(self.id);
        path.append(id.as_str());
        Descriptor { method: Method::Get, path, auth: true }
    }
}

/// One order known by its client id.
#[derive(Clone, Debug)]
pub struct GetOrderByClientId {
    pub client_id: String,
}

impl GetOrderByClientId {
    pub fn new(client_id: &str) -> (r: GetOrderByClientId)
        ensures
            r.client_id@ == client_id@,
    {
        GetOrderByClientId { client_id: String::from_str(client_id) }
    }

    /// The method, path and signing requirement of this request.
    pub fn descriptor(&self) -> (r: Descriptor)
        ensures
            r.method == Method::Get,
            r.auth == true,
            r.path@ == "/orders/by_client_id/"@ + self.client_id@,
    {
        proof {
            reveal_strlit("/orders/by_client_id/");
        }
        let mut path = String::from_str("/orders/by_client_id/");
        path.append(self.client_id.as_str());
        Descriptor { method: Method::Get, path, auth: true }
    }
}

/// Cancels an order.
#[derive(Clone, Debug)]
pub struct CancelOrder {
    pub id: u64,
}

impl CancelOrder {
    pub fn new(order_id: u64) -> (r: CancelOrder)
        ensures
            r.id == order_id,
    {
        CancelOrder { id: order_id }
    }

    /// The method, path and signing requirement of this request.
    pub fn descriptor(&self) -> (r: Descriptor)
        ensures
            r.method == Method::Delete,
            r.auth == true,
            r.path@ == "/orders/"@ + decimal_text(self.id as nat),
    {
        proof {
            reveal_strlit("/orders/");
        }
        let mut path = String::from_str("/orders/");
        let id = decimal_string(self.id);
        path.append(id.as_str());
        Descriptor { method: Method::Delete, path, auth: true }
    }
}

/// Cancels an order known by its client id.
#[derive(Clone, Debug)]
pub struct CancelOrderByClientId {
    pub client_id: String,
}

impl CancelOrderByClientId {
    pub fn new(client_id: &str) -> (r: CancelOrderByClientId)
        ensures
            r.client_id@ == client_id@,
    {
        CancelOrderByClientId { client_id: String::from_str(client_id) }
    }

    /// The method, path and signing requirement of this request.
    pub fn descriptor(&self) -> (r: Descriptor)
        ensures
            r.method == Method::Delete,
            r.auth == true,
            r.path@ == "/orders/by_client_id/"@ + self.client_id@,
    {
        proof {
            reveal_strlit("/orders/by_client_id/");
        }
        let mut path = String::from_str("/orders/by_client_id/");
        path.append(self.client_id.as_str());
        Descriptor { method: Method::Delete, path, auth: true }
    }
}

/// Cancels all orders, or those that the fields select.
#[derive(Clone, Debug)]
pub struct CancelAllOrder {
    pub market: Option<String>,
    pub side: Option<Side>,
    pub conditional_orders_only: Option<bool>,
    pub limit_orders_only: Option<bool>,
}

impl CancelAllOrder {
    pub fn with_market(market: &str) -> (r: CancelAllOrder)
        ensures
            r.market matches Some(m) && m@ == market@,
            r.side is None,
            r.conditional_orders_only is None,
            r.limit_orders_only is None,
    {
        CancelAllOrder { market: Some(String::from_str(market)), side: None, conditional_orders_only: None, limit_orders_only: None }
    }

    /// The method, path and signing requirement of this request.
    pub fn descriptor(&self) -> (r: Descriptor)
        ensures
            r.method == Method::Delete,
            r.auth == true,
            r.path@ == "/orders"@,
    {
        Descriptor { method: Method::Delete, path: String::from_str("/orders"), auth: true }
    }
}

/// The account's fills on a market.
#[derive(Clone, Debug)]
pub struct GetFills {
    pub market_name: String,
    pub start_time: Option<i64>,
    pub end_time: Option<i64>,
    pub order_id: Option<u64>,
    pub limit: Option<u64>,
}

impl GetFills {
    pub fn new(market_name: &str) -> (r: GetFills)
        ensures
            r.market_name@ == market_name@,
            r.start_time is None,
            r.end_time is None,
            r.order_id is None,
            r.limit is None,
    {
        GetFills { market_name: String::from_str(market_name), start_time: None, end_time: None, order_id: None, limit: None }
    }

    /// The method, path and signing requirement of this request.
    pub fn descriptor(&self) -> (r: Descriptor)
        ensures
            r.method == Method::Get,
            r.auth == true,
            r.path@ == "/fills"@,
    {
        Descriptor { method: Method::Get, path: String::from_str("/fills"), auth: true }
    }
}

/// The account's funding payments.
#[derive(Clone, Debug)]
pub struct GetFundingPayments {
    pub future: Option<String>,
    pub start_time: Option<i64>,
    pub end_time: Option<i64>,
}

impl GetFundingPayments {
    /// The method, path and signing requirement of this request.
    pub fn descriptor(&self) -> (r: Descriptor)
        ensures
            r.method == Method::Get,
            r.auth == true,
            r.path@ == "/funding_payments"@,
    {
        Descriptor { method: Method::Get, path: String::from_str("/funding_payments"), auth: true }
    }
}

/// The lending rates.
#[derive(Clone, Debug)]
pub struct GetLendingRates {}

impl GetLendingRates {
    /// The method, path and signing requirement of this request.
    pub fn descriptor(&self) -> (r: Descriptor)
        ensures
            r.method == Method::Get,
            r.auth == true,
            r.path@ == "/spot_margin/lending_rates"@,
    {
        Descriptor { method: Method::Get, path: String::from_str("/spot_margin/lending_rates"), auth: true }
    }
}

/// The account's lending history.
#[derive(Clone, Debug)]
pub struct GetMyLendingHistory {
    pub start_time: Option<i64>,
    pub end_time: Option<i64>,
}

impl GetMyLendingHistory {
    /// The method, path and signing requirement of this request.
    pub fn descriptor(&self) -> (r: Descriptor)
        ensures
            r.method == Method::Get,
            r.auth == true,
            r.path@ == "/spot_margin/lending_history"@,
    {
        Descriptor { method: Method::Get, path: String::from_str("/spot_margin/lending_history"), auth: true }
    }
}

/// The account's lending information.
#[derive(Clone, Debug)]
pub struct GetLendingInfo {}

impl GetLendingInfo {
    /// The method, path and signing requirement of this request.
    pub fn descriptor(&self) -> (r: Descriptor)
        ensures
            r.method == Method::Get,
            r.auth == true,
            r.path@ == "/spot_margin/lending_info"@,
    {
        Descriptor { method: Method::Get, path: String::from_str("/spot_margin/lending_info"), auth: true }
    }
}

/// Offers a coin for lending.
#[derive(Clone, Debug)]
pub struct SubmitLendingOffer {
    pub coin: String,
    pub size: Decimal,
    pub rate: Decimal,
}

impl SubmitLendingOffer {
    /// The method, path and signing requirement of this request.
    pub fn descriptor(&self) -> (r: Descriptor)
        ensures
            r.method == Method::Post,
            r.auth == true,
            r.path@ == "/spot_margin/offers"@,
    {
        Descriptor { method: Method::Post, path: String::from_str("/spot_margin/offers"), auth: true }
    }
}

impl PlaceOrder {
    /// A limit order must carry a price: checked before the request is made.
    pub fn validate(&self) -> (r: Result<(), crate::rest::Error>)
        ensures
            r is Err <==> (self.order_type == OrderType::Limit && self.price is None),
            r is Err ==> r matches Err(crate::rest::Error::PlacingLimitOrderRequiresPrice),
    {
        crate::rest::check_order_price(self.order_type, &self.price)
    }
}

} // verus!
