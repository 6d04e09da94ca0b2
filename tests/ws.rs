use ftx::decimal::Decimal;
use ftx::model::{OrderInfo, OrderStatus, OrderType, Side, Timestamp, Trade};
use ftx::options::Options;
use ftx::rest::login_signature;
use ftx::ws::{
    login_frame, Channel, Data, Error, Outbound, Response, ResponseData, Session, Step, Ticker, Type, LOOKAHEAD,
};

fn ack(kind: Type) -> Response {
    Response { market: None, kind, data: None }
}

fn trade(id: u64) -> Trade {
    Trade {
        id,
        liquidation: false,
        price: Decimal::new(100, 0),
        side: Side::Buy,
        size: Decimal::new(1, 0),
        time: Timestamp { seconds: 0, nanos: 0 },
    }
}

fn ticker_frame() -> Response {
    let t = Ticker {
        bid: Decimal::new(1, 0),
        ask: Decimal::new(2, 0),
        bid_size: Decimal::new(3, 0),
        ask_size: Decimal::new(4, 0),
        last: Decimal::new(2, 0),
        time: Timestamp { seconds: 0, nanos: 0 },
    };
    Response { market: Some(String::from("BTC-PERP")), kind: Type::Update, data: Some(ResponseData::Ticker(t)) }
}

fn subscribed(session: &mut Session, channels: Vec<Channel>) {
    let n = channels.len();
    assert!(matches!(session.subscribe(channels), Step::Send(Outbound::Subscribe(_))));
    for i in 0..n {
        let step = session.on_response(ack(Type::Subscribed));
        if i + 1 == n {
            assert!(matches!(step, Step::Done(Ok(()))));
        } else {
            assert!(matches!(step, Step::Send(Outbound::Subscribe(_))));
        }
    }
}

#[test]
fn subscribe_private_on_anonymous_session_fails() {
    let mut s = Session::new(false);
    assert!(matches!(s.subscribe(vec![Channel::Fills]), Step::Done(Err(Error::SocketNotAuthenticated))));
    assert!(matches!(
        s.subscribe(vec![Channel::Trades(String::from("BTC-PERP")), Channel::Orders]),
        Step::Done(Err(Error::SocketNotAuthenticated))
    ));
    assert!(s.active_channels().is_empty());
}

#[test]
fn subscribe_private_on_authenticated_session() {
    let mut s = Session::new(true);
    subscribed(&mut s, vec![Channel::Fills, Channel::Orders]);
    assert_eq!(s.active_channels().len(), 2);
}

#[test]
fn subscribe_adds_only_on_acknowledgement() {
    let mut s = Session::new(false);
    let step = s.subscribe(vec![Channel::Trades(String::from("BTC-PERP"))]);
    assert!(matches!(step, Step::Send(Outbound::Subscribe(Channel::Trades(ref m))) if m == "BTC-PERP"));
    assert!(s.active_channels().is_empty());
    assert!(matches!(s.on_response(ack(Type::Subscribed)), Step::Done(Ok(()))));
    assert_eq!(s.active_channels().len(), 1);
}

#[test]
fn subscribe_unsubscribe_trades() {
    let mut s = Session::new(false);
    subscribed(&mut s, vec![Channel::Trades(String::from("BTC-PERP")), Channel::Trades(String::from("ETH-PERP"))]);
    assert_eq!(s.active_channels().len(), 2);
    let step = s.unsubscribe(vec![Channel::Trades(String::from("ETH-PERP"))]);
    assert!(matches!(step, Step::Send(Outbound::Unsubscribe(_))));
    assert!(matches!(s.on_response(ack(Type::Unsubscribed)), Step::Done(Ok(()))));
    assert_eq!(s.active_channels().len(), 1);
    let step = s.unsubscribe(vec![Channel::Trades(String::from("LTC-PERP"))]);
    assert!(matches!(step, Step::Done(Err(Error::NotSubscribedToThisChannel(Channel::Trades(ref m)))) if m == "LTC-PERP"));
    assert!(matches!(s.unsubscribe_all(), Step::Send(Outbound::Unsubscribe(_))));
    assert!(matches!(s.on_response(ack(Type::Unsubscribed)), Step::Done(Ok(()))));
    assert!(s.active_channels().is_empty());
}

#[test]
fn subscribe_then_unsubscribe_restores_channels() {
    let mut s = Session::new(false);
    subscribed(&mut s, vec![Channel::Ticker(String::from("BTC-PERP"))]);
    let before = s.active_channels().len();
    subscribed(&mut s, vec![Channel::Orderbook(String::from("ETH-PERP"))]);
    assert!(matches!(s.unsubscribe(vec![Channel::Orderbook(String::from("ETH-PERP"))]), Step::Send(_)));
    assert!(matches!(s.on_response(ack(Type::Unsubscribed)), Step::Done(Ok(()))));
    assert_eq!(s.active_channels().len(), before);
    assert!(s.active_channels()[0].same(&Channel::Ticker(String::from("BTC-PERP"))));
}

#[test]
fn missing_confirmation_after_lookahead() {
    let mut s = Session::new(false);
    assert!(matches!(s.subscribe(vec![Channel::Ticker(String::from("BTC-PERP"))]), Step::Send(_)));
    for _ in 0..LOOKAHEAD - 1 {
        assert!(matches!(s.on_response(ticker_frame()), Step::Receive));
    }
    assert!(matches!(s.on_response(ticker_frame()), Step::Done(Err(Error::MissingSubscriptionConfirmation))));
    assert!(s.active_channels().is_empty());
    assert_eq!(s.buffered(), LOOKAHEAD);
}

#[test]
fn data_seen_while_waiting_is_buffered_in_order() {
    let mut s = Session::new(false);
    assert!(matches!(s.subscribe(vec![Channel::Ticker(String::from("BTC-PERP"))]), Step::Send(_)));
    assert!(matches!(s.on_response(ticker_frame()), Step::Receive));
    assert!(matches!(s.on_response(ack(Type::Subscribed)), Step::Done(Ok(()))));
    assert!(matches!(s.next_item(), Some((Some(ref m), Data::Ticker(_))) if m == "BTC-PERP"));
    assert!(s.next_item().is_none());
}

#[test]
fn pongs_and_ticks_never_reach_the_consumer() {
    let mut s = Session::new(false);
    assert!(matches!(s.on_tick(), Outbound::Ping));
    assert!(matches!(s.on_response(ack(Type::Pong)), Step::Receive));
    assert_eq!(s.buffered(), 0);
    assert!(s.next_item().is_none());
    assert!(matches!(s.subscribe(vec![Channel::Fills]), Step::Done(Err(_))));
    let mut t = Session::new(true);
    assert!(matches!(t.subscribe(vec![Channel::Fills]), Step::Send(_)));
    for _ in 0..500 {
        assert!(matches!(t.on_response(ack(Type::Pong)), Step::Receive));
    }
    assert!(matches!(t.on_response(ack(Type::Subscribed)), Step::Done(Ok(()))));
    assert_eq!(t.buffered(), 0);
}

#[test]
fn trades_frame_is_split_into_single_trades() {
    let mut s = Session::new(false);
    let frame = Response {
        market: Some(String::from("BTC-PERP")),
        kind: Type::Update,
        data: Some(ResponseData::Trades(vec![trade(1), trade(2), trade(3)])),
    };
    assert!(matches!(s.on_response(frame), Step::Receive));
    assert_eq!(s.buffered(), 3);
    for id in 1..4 {
        match s.next_item() {
            Some((Some(m), Data::Trade(t))) => {
                assert_eq!(m, "BTC-PERP");
                assert_eq!(t.id, id);
            }
            _ => panic!("Trade data expected."),
        }
    }
}

#[test]
fn stray_acknowledgements_are_dropped() {
    let mut s = Session::new(false);
    assert!(matches!(s.on_response(ack(Type::Subscribed)), Step::Receive));
    assert!(matches!(s.on_response(ack(Type::Unsubscribed)), Step::Receive));
    assert_eq!(s.buffered(), 0);
    assert!(s.active_channels().is_empty());
}

#[test]
fn login_frame_only_with_key_and_secret() {
    assert!(login_frame(&Options::default(), 1).is_none());
    let o = Options::default().authenticate(String::from("k"), String::from("s")).subaccount(String::from("Bot"));
    match login_frame(&o, 1234) {
        Some(Outbound::Login { key, sign, time, subaccount }) => {
            assert_eq!(key, "k");
            assert_eq!(sign, login_signature("s", 1234));
            assert_eq!(time, 1234);
            assert_eq!(subaccount.as_deref(), Some("Bot"));
        }
        _ => panic!("login frame expected"),
    }
}

#[test]
fn failed_session_reports_its_error() {
    let mut s = Session::new(false);
    assert!(s.failure().is_none());
    s.fail(Error::Transport(String::from("connection reset")));
    assert!(matches!(s.failure(), Some(Error::Transport(ref m)) if m == "connection reset"));
    assert!(matches!(s.failure(), Some(Error::Transport(_))));
}

fn order(id: u64, status: OrderStatus, post_only: bool) -> Response {
    let info = OrderInfo {
        id,
        market: String::from("BTC-PERP"),
        future: Some(String::from("BTC-PERP")),
        order_type: OrderType::Limit,
        side: Side::Buy,
        price: Some(Decimal::new(38000, 0)),
        size: Decimal::new(1, 4),
        reduce_only: Some(false),
        ioc: Some(false),
        post_only: Some(post_only),
        status,
        filled_size: Some(Decimal::new(0, 0)),
        remaining_size: Some(Decimal::new(1, 4)),
        avg_fill_price: None,
        liquidation: None,
        created_at: Timestamp { seconds: 1621740952, nanos: 0 },
        client_id: None,
        retry_until_filled: None,
        trigger_price: None,
        order_price: None,
        triggered_at: None,
        error: None,
    };
    Response { market: None, kind: Type::Update, data: Some(ResponseData::Order(info)) }
}

fn next_order(s: &mut Session) -> OrderInfo {
    match s.next_item() {
        Some((_, Data::Order(o))) => o,
        _ => panic!("Order data expected."),
    }
}

#[test]
fn orders_channel_delivers_lifecycle_in_arrival_order() {
    let mut s = Session::new(true);
    subscribed(&mut s, vec![Channel::Orders]);
    // placed, cancelled by the modification, placed again, cancelled
    for (id, status) in [(1, OrderStatus::New), (1, OrderStatus::Closed), (2, OrderStatus::New), (2, OrderStatus::Closed)] {
        assert!(matches!(s.on_response(order(id, status, false)), Step::Receive));
    }
    let placed = next_order(&mut s);
    assert_eq!(placed.status, OrderStatus::New);
    let cancelled = next_order(&mut s);
    assert_eq!(cancelled.id, placed.id);
    assert_eq!(cancelled.status, OrderStatus::Closed);
    let modified = next_order(&mut s);
    assert_ne!(modified.id, cancelled.id);
    assert_eq!(modified.status, OrderStatus::New);
    let modified_cancelled = next_order(&mut s);
    assert_eq!(modified_cancelled.id, modified.id);
    assert_eq!(modified_cancelled.status, OrderStatus::Closed);
    assert!(s.next_item().is_none());
}

#[test]
fn rejected_post_only_order_is_reported_closed() {
    let mut s = Session::new(true);
    subscribed(&mut s, vec![Channel::Orders]);
    assert!(matches!(s.on_response(order(3, OrderStatus::Closed, true)), Step::Receive));
    let rejected = next_order(&mut s);
    assert_eq!(rejected.status, OrderStatus::Closed);
    assert_eq!(rejected.filled_size, Some(Decimal::new(0, 0)));
    assert_eq!(rejected.avg_fill_price, None);
}
