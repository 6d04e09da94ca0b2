use ftx::catalog::{
    CancelOrder, CancelOrderByClientId, ChangeSubaccountName, CreateSubaccount, DeleteSavedAddress,
    DeleteSubaccount, GetFuture, GetFutureStats, GetFutures, GetMarket, GetMarkets, GetOpenOrders,
    GetOrder, GetOrderBook, GetOrderByClientId, GetPositions, GetSubaccountBalances, GetSubaccounts,
    ModifyOrder, PlaceOrder,
};
use ftx::decimal::Decimal;
use ftx::model::{OrderType, Resolution, Side};
use ftx::options::{Endpoint, Options};
use ftx::rest::{
    check_order_price, decimal_string, interpret_envelope, login_signature, sign, url_encode, Dispatcher, Error,
    ErrorResponse, Method, SuccessResponse,
};

fn header<'a>(headers: &'a [(String, String)], name: &str) -> Option<&'a str> {
    headers.iter().find(|(n, _)| n == name).map(|(_, v)| v.as_str())
}

fn authed() -> Dispatcher {
    Dispatcher::new(Options::default().authenticate(String::from("key"), String::from("secret")))
}

#[test]
fn sign_matches_hmac_sha256_test_vector() {
    // RFC 4231, test case 2
    let s = sign("Jefe", "what do ya want for nothing?");
    assert_eq!(s, "5bdcc146bf60754e6a042426089575c75a003f089d2739839dec58b964ec3843");
    assert_eq!(s.len(), 64);
}

#[test]
fn decimal_string_renders_timestamps() {
    assert_eq!(decimal_string(0), "0");
    assert_eq!(decimal_string(7), "7");
    assert_eq!(decimal_string(1621740952507), "1621740952507");
    assert_eq!(decimal_string(u64::MAX), "18446744073709551615");
}

#[test]
fn login_signature_signs_timestamp_and_word() {
    assert_eq!(login_signature("secret", 1234), sign("secret", "1234websocket_login"));
}

#[test]
fn get_without_query_has_no_question_mark() {
    let p = authed().prepare(Method::Get, true, "/account", "", "", 1000).unwrap();
    assert_eq!(p.path, "/account");
    assert_eq!(p.url, "https://ftx.com/api/account");
    assert_eq!(p.body, None);
    assert_eq!(header(&p.headers, "FTX-SIGN"), Some(sign("secret", "1000GET/api/account").as_str()));
}

#[test]
fn get_query_is_signed_as_sent() {
    let p = authed().prepare(Method::Get, true, "/orders", "market=BTC-PERP", "ignored", 42).unwrap();
    assert_eq!(p.path, "/orders?market=BTC-PERP");
    assert_eq!(p.url, "https://ftx.com/api/orders?market=BTC-PERP");
    assert_eq!(header(&p.headers, "FTX-TS"), Some("42"));
    assert_eq!(
        header(&p.headers, "FTX-SIGN"),
        Some(sign("secret", "42GET/api/orders?market=BTC-PERP").as_str())
    );
    assert_eq!(header(&p.headers, "Content-Type"), Some("application/json"));
}

#[test]
fn post_body_is_signed_and_sent() {
    let body = "{\"market\":\"BTC-PERP\"}";
    let p = authed().prepare(Method::Post, true, "/orders", "x=1", body, 5).unwrap();
    assert_eq!(p.path, "/orders");
    assert_eq!(p.body.as_deref(), Some(body));
    let expected = sign("secret", &format!("5POST/api/orders{}", body));
    assert_eq!(header(&p.headers, "FTX-SIGN"), Some(expected.as_str()));
}

#[test]
fn authenticated_request_without_secret_fails() {
    let anon = Dispatcher::new(Options::default());
    assert!(matches!(anon.prepare(Method::Get, true, "/account", "", "", 1), Err(Error::NoSecretConfigured)));
}

#[test]
fn public_request_is_not_signed() {
    let anon = Dispatcher::new(Options::us());
    let p = anon.prepare(Method::Get, false, "/markets", "", "", 1).unwrap();
    assert_eq!(p.url, "https://ftx.us/api/markets");
    assert_eq!(header(&p.headers, "FTXUS-SIGN"), None);
    assert_eq!(header(&p.headers, "FTXUS-TS"), Some("1"));
    assert_eq!(p.headers.len(), 2);
}

#[test]
fn subaccount_header_is_attached() {
    let d = Dispatcher::new(
        Options::default()
            .authenticate(String::from("k"), String::from("s"))
            .subaccount(String::from("Bot")),
    );
    let p = d.prepare(Method::Delete, true, "/orders/1", "", "", 9).unwrap();
    assert_eq!(header(&p.headers, "FTX-SUBACCOUNT"), Some("Bot"));
    let defaults = d.default_headers();
    assert_eq!(header(&defaults, "FTX-KEY"), Some("k"));
    assert_eq!(header(&defaults, "FTX-SUBACCOUNT"), Some("Bot"));
}

#[test]
fn envelope_success_error_and_codec() {
    let ok: Result<u32, Error> = interpret_envelope(Ok(SuccessResponse { success: true, result: 7u32 }), Err(String::from("x")));
    assert!(matches!(ok, Ok(7)));
    let api: Result<u32, Error> = interpret_envelope(
        Err(String::from("not a result")),
        Ok(ErrorResponse { success: false, error: String::from("Not logged in") }),
    );
    assert!(matches!(api, Err(Error::Api(m)) if m == "Not logged in"));
    let codec: Result<u32, Error> = interpret_envelope(Err(String::from("a")), Err(String::from("b")));
    assert!(matches!(codec, Err(Error::Codec(m)) if m == "b"));
}

#[test]
fn limit_order_requires_price() {
    assert!(matches!(check_order_price(OrderType::Limit, &None), Err(Error::PlacingLimitOrderRequiresPrice)));
    assert!(check_order_price(OrderType::Limit, &Some(Decimal::new(1, 0))).is_ok());
    assert!(check_order_price(OrderType::Market, &None).is_ok());
    let order = PlaceOrder {
        market: String::from("BTC-PERP"),
        side: Side::Buy,
        price: None,
        order_type: OrderType::Limit,
        size: Decimal::new(1, 4),
        reduce_only: false,
        ioc: false,
        post_only: true,
        client_id: None,
        reject_on_price_band: false,
    };
    assert!(order.validate().is_err());
}

#[test]
fn catalog_paths_and_methods() {
    let m = GetMarket::new("BTC/USD").descriptor();
    assert_eq!(m.path, "/markets/BTC/USD");
    assert_eq!(m.method, Method::Get);
    assert!(!m.auth);
    assert_eq!(GetOrderBook::with_depth("BTC/USD", 50).depth, Some(50));
    assert_eq!(GetOrderBook::new("BTC/USD").descriptor().path, "/markets/BTC/USD/orderbook");
    assert_eq!(GetOrderBook::new("BTC/USD").depth, None);
    assert_eq!(GetMarkets {}.descriptor().path, "/markets");
    assert_eq!(GetFutures {}.descriptor().path, "/futures");
    assert_eq!(GetFuture::new("BTC-PERP").descriptor().path, "/futures/BTC-PERP");
    let stats = GetFutureStats { future_name: String::from("BTC-PERP") };
    assert_eq!(stats.descriptor().path, "/futures/BTC-PERP/stats");
    assert_eq!(GetOrder::new(42).descriptor().path, "/orders/42");
    let cancel = CancelOrder::new(7).descriptor();
    assert_eq!(cancel.path, "/orders/7");
    assert_eq!(cancel.method, Method::Delete);
    assert!(cancel.auth);
    let modify = ModifyOrder { id: 9, price: None, size: None, client_id: None };
    assert_eq!(modify.descriptor().path, "/orders/9/modify");
    assert_eq!(GetOrderByClientId::new("abc").descriptor().path, "/orders/by_client_id/abc");
    assert_eq!(CancelOrderByClientId::new("abc").descriptor().method, Method::Delete);
    assert_eq!(GetOpenOrders::all_market().market, None);
    assert_eq!(GetOpenOrders::with_market("ETH-PERP").market.as_deref(), Some("ETH-PERP"));
    assert!(GetPositions {}.descriptor().auth);
    assert_eq!(DeleteSavedAddress { saved_address_id: 3 }.descriptor().path, "/wallet/saved_addresses/3");
}

#[test]
fn catalog_subaccounts() {
    assert_eq!(GetSubaccounts {}.descriptor().path, "/subaccounts");
    assert_eq!(CreateSubaccount::new("Bot").nickname, "Bot");
    assert_eq!(CreateSubaccount::new("Bot").descriptor().method, Method::Post);
    let rename = ChangeSubaccountName::new("Bot", "Bot2");
    assert_eq!(rename.new_nickname, "Bot2");
    assert_eq!(rename.descriptor().path, "/subaccounts/update_name");
    assert_eq!(DeleteSubaccount::new("Bot").descriptor().method, Method::Delete);
    assert_eq!(GetSubaccountBalances::new("Bot").descriptor().path, "/subaccounts/Bot/balances");
}

#[test]
fn resolution_seconds() {
    assert_eq!(Resolution::FifteenSeconds.get_seconds(), 15);
    assert_eq!(Resolution::FiveMinutes.get_seconds(), 300);
    assert_eq!(Resolution::Day.get_seconds(), 86400);
    assert_eq!(Resolution::Week.get_seconds(), 604800);
    assert_eq!(Resolution::ThirtyDays.get_seconds(), 2592000);
}

#[test]
fn endpoint_urls_and_headers() {
    assert_eq!(Endpoint::Com.ws(), "wss://ftx.com/ws");
    assert_eq!(Endpoint::Us.ws(), "wss://ftx.us/ws");
    assert_eq!(Endpoint::Com.rest(), "https://ftx.com/api");
    assert_eq!(Endpoint::Us.rest(), "https://ftx.us/api");
    assert_eq!(Endpoint::Com.optimized_access_rest(), "https://api.ftx.com/api");
    assert_eq!(Endpoint::Us.header_prefix(), "FTXUS");
    assert_eq!(Endpoint::Com.timestamp_header(), "FTX-TS");
    assert_eq!(Endpoint::Us.sign_header(), "FTXUS-SIGN");
    assert_eq!(Endpoint::Com.subaccount_header(), "FTX-SUBACCOUNT");
    assert_eq!(Endpoint::Us.key_header(), "FTXUS-KEY");
    assert_eq!(Endpoint::default(), Endpoint::Com);
}

#[test]
fn options_builders() {
    let o = Options::us().authenticate(String::from("k"), String::from("s"));
    assert_eq!(o.endpoint, Endpoint::Us);
    assert_eq!(o.key.as_deref(), Some("k"));
    assert_eq!(o.secret.as_deref(), Some("s"));
    assert_eq!(o.subaccount, None);
    let o = o.subaccount(String::from("Bot"));
    assert_eq!(o.subaccount.as_deref(), Some("Bot"));
    let o = o.subaccount_optional(None);
    assert_eq!(o.subaccount, None);
    assert_eq!(Options::default().endpoint, Endpoint::Com);
}

#[test]
fn url_encode_keeps_unreserved_and_escapes_the_rest() {
    assert_eq!(url_encode("Bot-1_a.b~"), "Bot-1_a.b~");
    assert_eq!(url_encode("my bot/1"), "my%20bot%2F1");
    assert_eq!(url_encode("\u{e9}"), "%C3%A9");
    assert_eq!(url_encode(""), "");
}

#[test]
fn subaccount_header_is_url_encoded() {
    let d = Dispatcher::new(
        Options::default()
            .authenticate(String::from("k"), String::from("s"))
            .subaccount(String::from("my bot")),
    );
    let p = d.prepare(Method::Get, true, "/account", "", "", 9).unwrap();
    assert_eq!(header(&p.headers, "FTX-SUBACCOUNT"), Some("my%20bot"));
    assert_eq!(header(&d.default_headers(), "FTX-SUBACCOUNT"), Some("my%20bot"));
}

#[test]
fn absent_query_fields_are_left_out() {
    let fields = vec![
        (String::from("depth"), Some(String::from("50"))),
        (String::from("start_time"), None),
        (String::from("market"), Some(String::from("BTC-PERP"))),
    ];
    let present = ftx::rest::present_fields(&fields);
    assert_eq!(present, vec![(String::from("depth"), String::from("50")), (String::from("market"), String::from("BTC-PERP"))]);
}
