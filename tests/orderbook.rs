use ftx::decimal::Decimal;
use ftx::model::{Side, Timestamp};
use ftx::orderbook::{format_value, Orderbook, OrderbookAction, OrderbookData};
use ftx::ws::Error;

fn d(mantissa: i64, scale: u32) -> Decimal {
    Decimal::new(mantissa, scale)
}

fn frame(action: OrderbookAction, bids: Vec<(Decimal, Decimal)>, asks: Vec<(Decimal, Decimal)>, checksum: u32) -> OrderbookData {
    OrderbookData { action, bids, asks, checksum, time: Timestamp { seconds: 1621740952, nanos: 507955300 } }
}

fn crc(text: &str) -> u32 {
    crc32fast::hash(text.as_bytes())
}

fn from_outside(x: rust_decimal::Decimal) -> Decimal {
    Decimal::from_parts(x.mantissa(), x.scale()).unwrap()
}

fn helper_book() -> Orderbook {
    let mut ob = Orderbook::new(String::from("SHIT-PERP"));
    ob.insert_ask(d(7, 0), d(40, 0));
    ob.insert_ask(d(6, 0), d(30, 0));
    ob.insert_ask(d(5, 0), d(20, 0));
    ob.insert_bid(d(4, 0), d(5, 0));
    ob.insert_bid(d(3, 0), d(10, 0));
    ob.insert_bid(d(2, 0), d(15, 0));
    ob
}

#[test]
fn test_format_value() {
    assert_eq!(&format_value(&d(75, 6)), "7.5e-05");
    assert_eq!(&format_value(&d(1, 1)), "0.1");
}

#[test]
fn format_value_whole_numbers_get_one_place() {
    assert_eq!(&format_value(&d(5, 0)), "5.0");
    assert_eq!(&format_value(&d(500, 2)), "5.0");
    assert_eq!(&format_value(&d(10, 0)), "10.0");
}

#[test]
fn format_value_plain_above_threshold() {
    assert_eq!(&format_value(&d(1, 4)), "0.0001");
    assert_eq!(&format_value(&d(12345, 3)), "12.345");
}

#[test]
fn checksum_input_formatting() {
    let mut ob = Orderbook::new(String::from("BTC-PERP"));
    ob.insert_bid(d(1, 1), d(5, 0));
    ob.insert_ask(d(75, 6), d(2, 0));
    assert_eq!(&ob.checksum_input(), "0.1:5.0:7.5e-05:2.0");
}

#[test]
fn checksum_input_emits_only_populated_positions() {
    let mut ob = Orderbook::new(String::from("BTC-PERP"));
    ob.insert_bid(d(4, 0), d(1, 0));
    ob.insert_bid(d(3, 0), d(2, 0));
    ob.insert_ask(d(5, 0), d(3, 0));
    assert_eq!(&ob.checksum_input(), "4.0:1.0:5.0:3.0:3.0:2.0");
}

#[test]
fn checksum_input_covers_best_hundred_levels() {
    let mut ob = Orderbook::new(String::from("BTC-PERP"));
    for i in 0..120 {
        ob.insert_ask(d(1000 + i, 0), d(1, 0));
    }
    let text = ob.checksum_input();
    assert_eq!(text.split(':').count(), 200);
    assert!(text.starts_with("1000.0:1.0:1001.0"));
    assert!(text.ends_with("1099.0:1.0"));
}

#[test]
fn partial_then_update_with_matching_checksums() {
    let mut ob = Orderbook::new(String::from("BTC-PERP"));
    assert!(!ob.is_initialized());
    let snapshot = frame(
        OrderbookAction::Partial,
        vec![(d(4, 0), d(5, 0)), (d(3, 0), d(10, 0))],
        vec![(d(5, 0), d(20, 0))],
        crc("4.0:5.0:5.0:20.0:3.0:10.0"),
    );
    assert!(ob.update(&snapshot).is_ok());
    assert!(ob.is_initialized());
    let delta = frame(
        OrderbookAction::Update,
        vec![(d(4, 0), d(0, 0)), (d(35, 1), d(1, 0))],
        vec![],
        crc("3.5:1.0:5.0:20.0:3.0:10.0"),
    );
    assert!(ob.update(&delta).is_ok());
    assert_eq!(ob.bid_price(), Some(d(35, 1)));
    assert!(ob.verify_checksum(crc("3.5:1.0:5.0:20.0:3.0:10.0")));
}

#[test]
fn update_with_wrong_checksum_is_rejected() {
    let mut ob = Orderbook::new(String::from("BTC-PERP"));
    let snapshot = frame(OrderbookAction::Partial, vec![(d(4, 0), d(5, 0))], vec![], 12345);
    assert!(matches!(ob.update(&snapshot), Err(Error::IncorrectChecksum)));
    assert_eq!(ob.bid_price(), Some(d(4, 0)));
}

#[test]
fn update_before_partial_is_rejected() {
    let mut ob = Orderbook::new(String::from("BTC-PERP"));
    let delta = frame(OrderbookAction::Update, vec![(d(4, 0), d(5, 0))], vec![], 0);
    assert!(matches!(ob.update(&delta), Err(Error::MissingPartial)));
    assert!(!ob.is_initialized());
    assert_eq!(ob.best_bid(), None);
}

#[test]
fn same_partial_twice_gives_same_book() {
    let mut ob = Orderbook::new(String::from("BTC-PERP"));
    let snapshot = frame(
        OrderbookAction::Partial,
        vec![(d(4, 0), d(5, 0))],
        vec![(d(5, 0), d(20, 0))],
        crc("4.0:5.0:5.0:20.0"),
    );
    assert!(ob.update(&snapshot).is_ok());
    let bids = ob.bids().clone();
    let asks = ob.asks().clone();
    assert!(ob.update(&snapshot).is_ok());
    assert_eq!(ob.bids(), &bids);
    assert_eq!(ob.asks(), &asks);
}

#[test]
fn partial_on_initialized_book_resets_it() {
    let mut ob = Orderbook::new(String::from("BTC-PERP"));
    let first = frame(OrderbookAction::Partial, vec![(d(4, 0), d(5, 0))], vec![], crc("4.0:5.0"));
    assert!(ob.update(&first).is_ok());
    let second = frame(OrderbookAction::Partial, vec![(d(3, 0), d(1, 0))], vec![], crc("3.0:1.0"));
    assert!(ob.update(&second).is_ok());
    assert_eq!(ob.bids().len(), 1);
    assert_eq!(ob.bid_price(), Some(d(3, 0)));
}

#[test]
fn zero_size_for_absent_price_is_noop() {
    let mut ob = helper_book();
    let before = ob.checksum_input();
    ob.insert_bid(d(37, 1), d(0, 0));
    ob.insert_ask(d(9, 0), d(0, 0));
    assert_eq!(ob.checksum_input(), before);
}

#[test]
fn equal_prices_with_other_scale_share_a_level() {
    let mut ob = Orderbook::new(String::from("BTC-PERP"));
    ob.insert_bid(d(4, 0), d(5, 0));
    ob.insert_bid(d(400, 2), d(7, 0));
    assert_eq!(ob.bids().len(), 1);
    assert_eq!(ob.best_bid(), Some((d(4, 0), d(7, 0))));
    ob.insert_bid(d(40, 1), d(0, 0));
    assert_eq!(ob.best_bid(), None);
}

#[test]
fn order_book_helpers_empty() {
    let ob = Orderbook::new(String::from("SHIT-PERP"));
    assert_eq!(ob.bid_price(), None);
    assert_eq!(ob.ask_price(), None);
    assert_eq!(ob.mid_price(), None);
    assert_eq!(ob.best_bid(), None);
    assert_eq!(ob.best_ask(), None);
    assert!(ob.best_bid_and_ask().is_none());
    assert_eq!(ob.quote(Side::Buy, d(100, 0)), None);
}

#[test]
fn order_book_helpers_best_prices() {
    let ob = helper_book();
    assert_eq!(ob.bid_price(), Some(d(4, 0)));
    assert_eq!(ob.ask_price(), Some(d(5, 0)));
    assert_eq!(ob.mid_price(), Some(d(45, 1)));
    assert_eq!(ob.best_bid(), Some((d(4, 0), d(5, 0))));
    assert_eq!(ob.best_ask(), Some((d(5, 0), d(20, 0))));
    assert_eq!(ob.best_bid_and_ask(), Some(((d(4, 0), d(5, 0)), (d(5, 0), d(20, 0)))));
}

#[test]
fn order_book_helpers_buy_quotes() {
    let ob = helper_book();
    assert_eq!(ob.quote(Side::Buy, d(15, 0)), Some(d(5, 0)));
    assert_eq!(ob.quote(Side::Buy, d(20, 0)), Some(d(5, 0)));
    assert_eq!(ob.quote(Side::Buy, d(25, 0)), Some(d(52, 1)));
    assert_eq!(ob.quote(Side::Buy, d(50, 0)), Some(d(56, 1)));
    assert_eq!(ob.quote(Side::Buy, d(70, 0)), Some(d(6, 0)));
    assert_eq!(ob.quote(Side::Buy, d(100, 0)), None);
}

#[test]
fn order_book_helpers_sell_quotes() {
    let ob = helper_book();
    let r = |x: i64| rust_decimal::Decimal::new(x, 0);
    assert_eq!(ob.quote(Side::Sell, d(5, 0)), Some(d(4, 0)));
    assert_eq!(ob.quote(Side::Sell, d(7, 0)), Some(from_outside((r(20) + r(6)) / r(7))));
    assert_eq!(ob.quote(Side::Sell, d(15, 0)), Some(from_outside((r(20) + r(30)) / r(15))));
    assert_eq!(ob.quote(Side::Sell, d(17, 0)), Some(from_outside((r(20) + r(30) + r(4)) / r(17))));
    assert_eq!(ob.quote(Side::Sell, d(30, 0)), Some(from_outside((r(20) + r(30) + r(30)) / r(30))));
    assert_eq!(ob.quote(Side::Sell, d(100, 0)), None);
}

#[test]
fn quote_of_zero_quantity_is_none() {
    let ob = helper_book();
    assert_eq!(ob.quote(Side::Buy, d(0, 0)), None);
}

#[test]
fn decimal_arithmetic_goes_through_rust_decimal() {
    assert_eq!(d(2, 0).checked_add(&d(5, 1)), Some(d(25, 1)));
    assert_eq!(d(2, 0).checked_sub(&d(5, 1)), Some(d(15, 1)));
    assert_eq!(d(2, 0).checked_mul(&d(5, 1)), Some(d(1, 0)));
    assert_eq!(d(9, 0).checked_div(&d(2, 0)), Some(d(45, 1)));
    assert_eq!(d(9, 0).checked_div(&d(0, 0)), None);
    assert_eq!(&d(-12345, 2).to_plain_string(), "-123.45");
    assert!(d(1, 0).less_than(&d(11, 1)));
    assert!(d(10, 1).equals(&d(1, 0)));
}

#[test]
fn decimal_from_parts_range() {
    assert!(Decimal::from_parts(1, 28).is_some());
    assert!(Decimal::from_parts(1, 29).is_none());
    assert!(Decimal::from_parts(1i128 << 96, 0).is_none());
    assert!(d(15, 1).is_integral() == false);
    assert!(d(150, 2).is_integral() == false);
    assert!(d(1500, 2).is_integral());
}

#[test]
fn trailing_zeros_are_dropped_from_tokens() {
    assert_eq!(&format_value(&d(10, 2)), "0.1");
    assert_eq!(&format_value(&d(12340, 4)), "1.234");
    assert_eq!(&format_value(&d(750, 7)), "7.5e-05");
}

#[test]
fn exponent_padding_only_for_one_digit() {
    assert_eq!(&format_value(&d(1, 10)), "1e-10");
    assert_eq!(&format_value(&d(5, 5)), "5e-05");
}

#[test]
fn negative_size_is_not_stored() {
    let mut ob = Orderbook::new(String::from("BTC-PERP"));
    ob.insert_bid(d(1, 0), d(-1, 0));
    assert_eq!(ob.best_bid(), None);
    ob.insert_bid(d(1, 0), d(2, 0));
    ob.insert_bid(d(1, 0), d(-1, 0));
    assert_eq!(ob.best_bid(), None);
}
