//! The WebSocket session engine: subscription bookkeeping, private-channel
//! gating, frame classification and the consumer-visible buffer. The socket
//! itself is driven by the caller, which hands frames and timer ticks in and
//! performs the actions handed back.

use crate::decimal::Decimal;
use crate::model::{Coin, Id, OrderInfo, Side, Symbol, Timestamp, Trade};
use crate::options::Options;
use crate::orderbook::OrderbookData;
use crate::rest::{login_payload, login_signature, signature};
use vstd::prelude::*;

verus! {

/// A subscription channel.
#[derive(Clone, Debug)]
pub enum Channel {
    Orderbook(String),
    Trades(String),
    Ticker(String),
    Fills,
    Orders,
}

/// What a channel denotes, with its market as text.
pub ghost enum ChannelView {
    Orderbook(Seq<char>),
    Trades(Seq<char>),
    Ticker(Seq<char>),
    Fills,
    Orders,
}

impl View for Channel {
    type V = ChannelView;

    open spec fn view(&self) -> ChannelView {
        match self {
            Channel::Orderbook(s) => ChannelView::Orderbook(s@),
            Channel::Trades(s) => ChannelView::Trades(s@),
            Channel::Ticker(s) => ChannelView::Ticker(s@),
            Channel::Fills => ChannelView::Fills,
            Channel::Orders => ChannelView::Orders,
        }
    }
}

/// Errors of the session and of the order book replica.
#[derive(Clone, Debug)]
pub enum Error {
    NotSubscribedToThisChannel(Channel),
    MissingSubscriptionConfirmation,
    SocketNotAuthenticated,
    /// An order book update arrived before its snapshot.
    MissingPartial,
    /// The replica's checksum differs from the exchange's.
    IncorrectChecksum,
    /// The socket failed; the text describes how.
    Transport(String),
    /// An inbound frame could not be decoded; the text describes why.
    Codec(String),
}

/// Whether a channel needs an authenticated session.
pub open spec fn is_private(c: ChannelView) -> bool {
    c == ChannelView::Fills || c == ChannelView::Orders
}

impl Channel {
    pub fn is_private(&self) -> (r: bool)
        ensures
            r == is_private(self@),
    {
        match self {
            Channel::Fills | Channel::Orders => true,
            _ => false,
        }
    }

    /// A copy of the channel.
    pub fn duplicate(&self) -> (r: Channel)
        ensures
            r@ == self@,
    {
        match self {
            Channel::Orderbook(s) => Channel::Orderbook(s.clone()),
            Channel::Trades(s) => Channel::Trades(s.clone()),
            Channel::Ticker(s) => Channel::Ticker(s.clone()),
            Channel::Fills => Channel::Fills,
            Channel::Orders => Channel::Orders,
        }
    }

    /// Whether two channels are the same channel.
    pub fn same(&self, other: &Channel) -> (r: bool)
        ensures
            r == (self@ == other@),
    {
        match (self, other) {
            (Channel::Orderbook(a), Channel::Orderbook(b)) => a.eq(b),
            (Channel::Trades(a), Channel::Trades(b)) => a.eq(b),
            (Channel::Ticker(a), Channel::Ticker(b)) => a.eq(b),
            (Channel::Fills, Channel::Fills) => true,
            (Channel::Orders, Channel::Orders) => true,
            _ => false,
        }
    }
}

#[derive(Clone, Copy, Debug, PartialEq, Eq, Structural)]
pub enum Liquidity {
    Maker,
    Taker,
}

/// The ticker of a market.
#[derive(Clone, Copy, Debug)]
pub struct Ticker {
    pub bid: Decimal,
    pub ask: Decimal,
    pub bid_size: Decimal,
    pub ask_size: Decimal,
    pub last: Decimal,
    pub time: Timestamp,
}

/// A fill of one of the account's orders.
#[derive(Clone, Debug)]
pub struct Fill {
    pub id: Id,
    pub market: Option<Symbol>,
    pub future: Option<Symbol>,
    pub base_currency: Option<Coin>,
    pub quote_currency: Option<Coin>,
    /// Such as `order`.
    pub fill_type: String,
    pub side: Side,
    pub price: Decimal,
    pub size: Decimal,
    pub order_id: Option<Id>,
    pub trade_id: Option<Id>,
    pub time: Timestamp,
    pub fee: Decimal,
    pub fee_rate: Decimal,
    pub fee_currency: Coin,
    pub liquidity: Liquidity,
}

/// The kind of an inbound frame.
#[derive(Clone, Copy, Debug, PartialEq, Eq, Structural)]
pub enum Type {
    Subscribed,
    Unsubscribed,
    Update,
    Error,
    Partial,
    Pong,
    Info,
}

/// The payload of an inbound frame, by the channel it comes from.
#[derive(Clone, Debug)]
pub enum ResponseData {
    Ticker(Ticker),
    Trades(Vec<Trade>),
    OrderbookData(OrderbookData),
    Fill(Fill),
    Order(OrderInfo),
}

/// One item of the consumer-visible stream.
#[derive(Clone, Debug)]
pub enum Data {
    Ticker(Ticker),
    Trade(Trade),
    OrderbookData(OrderbookData),
    Fill(Fill),
    Order(OrderInfo),
}

/// A decoded inbound frame.
#[derive(Clone, Debug)]
pub struct Response {
    pub market: Option<Symbol>,
    pub kind: Type,
    pub data: Option<ResponseData>,
}

/// An item for the consumer, with the market it came from.
pub type Item = (Option<Symbol>, Data);

/// What a frame adds to the stream: one item per trade of a trades frame, in
/// order, one item for any other payload, none without a payload.
pub open spec fn response_items(market: Option<Symbol>, data: Option<ResponseData>) -> Seq<Item> {
    match data {
        None => Seq::empty(),
        Some(ResponseData::Trades(ts)) => ts@.map_values(|t: Trade| (market, Data::Trade(t))),
        Some(ResponseData::Ticker(t)) => seq![(market, Data::Ticker(t))],
        Some(ResponseData::OrderbookData(o)) => seq![(market, Data::OrderbookData(o))],
        Some(ResponseData::Fill(f)) => seq![(market, Data::Fill(f))],
        Some(ResponseData::Order(o)) => seq![(market, Data::Order(o))],
    }
}

/// A frame for the socket.
#[derive(Clone, Debug)]
pub enum Outbound {
    Login { key: String, sign: String, time: u64, subaccount: Option<String> },
    Subscribe(Channel),
    Unsubscribe(Channel),
    Ping,
}

/// What the caller does next: send a frame, read the next frame, or report
/// the outcome of the operation in progress.
#[derive(Debug)]
pub enum Step {
    Send(Outbound),
    Receive,
    Done(Result<(), Error>),
}

/// How many frames an acknowledgement may take to arrive.
pub const LOOKAHEAD: usize = 100;

/// The channels in a sequence, as a set.
pub open spec fn channel_set(s: Seq<Channel>) -> Set<ChannelView> {
    Set::new(|v: ChannelView| exists|i: int| 0 <= i < s.len() && (#[trigger] s[i])@ == v)
}

pub open spec fn channel_views(s: Seq<Channel>) -> Seq<ChannelView> {
    s.map_values(|c: Channel| c@)
}

/// A subscribe or unsubscribe in progress: its channels, the one whose
/// acknowledgement is awaited, and how many frames have come since its request.
pub ghost struct PendingView {
    pub subscribe: bool,
    pub channels: Seq<ChannelView>,
    pub next: nat,
    pub waited: nat,
}

pub ghost struct SessionView {
    /// The fatal error that ended the session, if one did.
    pub failed: Option<Error>,
    pub active: Set<ChannelView>,
    /// The active channels in the order they were acknowledged.
    pub order: Seq<ChannelView>,
    pub buffer: Seq<Item>,
    pub authenticated: bool,
    pub pending: Option<PendingView>,
}

struct Pending {
    subscribe: bool,
    channels: Vec<Channel>,
    next: usize,
    waited: usize,
}

/// The state of one WebSocket session.
pub struct Session {
    failed: Option<Error>,
    channels: Vec<Channel>,
    buf: Vec<Item>,
    is_authenticated: bool,
    pending: Option<Pending>,
}

impl View for Session {
    type V = SessionView;

    closed spec fn view(&self) -> SessionView {
        SessionView {
            failed: self.failed,
            active: channel_set(self.channels@),
            order: channel_views(self.channels@),
            buffer: self.buf@,
            authenticated: self.is_authenticated,
            pending: match self.pending {
                Some(p) => Some(
                    PendingView {
                        subscribe: p.subscribe,
                        channels: channel_views(p.channels@),
                        next: p.next as nat,
                        waited: p.waited as nat,
                    },
                ),
                None => None,
            },
        }
    }
}

/// An operation in progress awaits a channel it holds, within the lookahead.
pub open spec fn pending_wf(p: PendingView) -> bool {
    p.next < p.channels.len() && p.waited < LOOKAHEAD
}

/// The frame that asks for `c` to be (un)subscribed.
pub open spec fn request_frame(subscribe: bool, o: Outbound, c: ChannelView) -> bool {
    if subscribe {
        o matches Outbound::Subscribe(x) && x@ == c
    } else {
        o matches Outbound::Unsubscribe(x) && x@ == c
    }
}

/// Whether a frame acknowledges the operation in progress.
pub open spec fn acknowledges(subscribe: bool, kind: Type) -> bool {
    if subscribe {
        kind == Type::Subscribed
    } else {
        kind == Type::Unsubscribed
    }
}

/// The active set after the acknowledgement of `c`.
pub open spec fn after_ack(active: Set<ChannelView>, subscribe: bool, c: ChannelView) -> Set<ChannelView> {
    if subscribe {
        active.insert(c)
    } else {
        active.remove(c)
    }
}

fn contains_channel(v: &Vec<Channel>, c: &Channel) -> (r: bool)
    ensures
        r == channel_set(v@).contains(c@),
{
    let mut i: usize = 0;
    while i < v.len()
        invariant
            i <= v@.len(),
            forall|k: int| 0 <= k < i ==> (#[trigger] v@[k])@ != c@,
        decreases v@.len() - i,
    {
        if v[i].same(c) {
            assert(channel_set(v@).contains(c@)) by {
                assert(v@[i as int]@ == c@);
            }
            return true;
        }
        i = i + 1;
    }
    false
}

fn add_channel(v: &mut Vec<Channel>, c: &Channel)
    ensures
        channel_set(final(v)@) == channel_set(old(v)@).insert(c@),
{
    if !contains_channel(v, c) {
        let ghost before = v@;
        v.push(c.duplicate());
        proof {
            assert forall|x: ChannelView| channel_set(v@).contains(x) == channel_set(before).insert(c@).contains(x) by {
                if channel_set(before).contains(x) {
                    let i = choose|i: int| 0 <= i < before.len() && (#[trigger] before[i])@ == x;
                    assert(v@[i] == before[i]);
                }
                if x == c@ {
                    assert(v@[before.len() as int]@ == x);
                }
                if channel_set(v@).contains(x) {
                    let i = choose|i: int| 0 <= i < v@.len() && (#[trigger] v@[i])@ == x;
                    if i < before.len() {
                        assert(v@[i] == before[i]);
                    }
                }
            }
            assert(channel_set(v@) =~= channel_set(before).insert(c@));
        }
    } else {
        proof {
            assert(channel_set(v@) =~= channel_set(v@).insert(c@));
        }
    }
}

fn remove_channel(v: &mut Vec<Channel>, c: &Channel)
    ensures
        channel_set(final(v)@) == channel_set(old(v)@).remove(c@),
{
    let ghost before = v@;
    let mut kept: Vec<Channel> = Vec::new();
    let mut i: usize = 0;
    while i < v.len()
        invariant
            v@ == before,
            i <= before.len(),
            channel_set(kept@) == channel_set(before.take(i as int)).remove(c@),
        decreases before.len() - i,
    {
        let ghost k0 = kept@;
        if !v[i].same(c) {
            kept.push(v[i].duplicate());
        }
        proof {
            let t1 = before.take(i + 1);
            let t0 = before.take(i as int);
            assert forall|x: ChannelView| channel_set(kept@).contains(x) == channel_set(t1).remove(c@).contains(x) by {
                if channel_set(t1).contains(x) && x != c@ {
                    let j = choose|j: int| 0 <= j < t1.len() && (#[trigger] t1[j])@ == x;
                    if j < i {
                        assert(t0[j] == t1[j]);
                        assert(channel_set(t0).contains(x));
                        assert(channel_set(k0).contains(x));
                        let m = choose|m: int| 0 <= m < k0.len() && (#[trigger] k0[m])@ == x;
                        assert(kept@[m] == k0[m]);
                    } else {
                        assert(kept@[k0.len() as int]@ == x);
                    }
                }
                if channel_set(kept@).contains(x) {
                    let m = choose|m: int| 0 <= m < kept@.len() && (#[trigger] kept@[m])@ == x;
                    if m < k0.len() {
                        assert(kept@[m] == k0[m]);
                        assert(channel_set(k0).contains(x));
                        let j = choose|j: int| 0 <= j < t0.len() && (#[trigger] t0[j])@ == x;
                        assert(t1[j] == t0[j]);
                    } else {
                        assert(t1[i as int] == before[i as int]);
                    }
                }
            }
            assert(channel_set(kept@) =~= channel_set(t1).remove(c@));
        }
        i = i + 1;
    }
    proof {
        assert(before.take(before.len() as int) =~= before);
    }
    *v = kept;
}

fn copy_symbol(s: &Option<Symbol>) -> (r: Option<Symbol>)
    ensures
        r == *s,
{
    match s {
        Some(x) => Some(x.clone()),
        None => None,
    }
}

/// Appends the items of a frame to the buffer.
fn push_items(buf: &mut Vec<Item>, market: Option<Symbol>, data: Option<ResponseData>)
    ensures
        final(buf)@ == old(buf)@ + response_items(market, data),
{
    let ghost before = buf@;
    match data {
        None => {
            proof {
                assert(before + Seq::<Item>::empty() =~= before);
            }
        },
        Some(ResponseData::Trades(ts)) => {
            let mut i: usize = 0;
            while i < ts.len()
                invariant
                    i <= ts@.len(),
                    buf@ == before + ts@.take(i as int).map_values(|t: Trade| (market, Data::Trade(t))),
                decreases ts@.len() - i,
            {
                let m = copy_symbol(&market);
                buf.push((m, Data::Trade(ts[i])));
                proof {
                    assert(ts@.take(i + 1).map_values(|t: Trade| (market, Data::Trade(t))) =~= ts@.take(
                        i as int,
                    ).map_values(|t: Trade| (market, Data::Trade(t))).push((market, Data::Trade(ts@[i as int]))));
                }
                i = i + 1;
            }
            proof {
                assert(ts@.take(ts@.len() as int) =~= ts@);
            }
        },
        Some(ResponseData::Ticker(t)) => {
            buf.push((market, Data::Ticker(t)));
            proof {
                assert(buf@ =~= before + seq![(market, Data::Ticker(t))]);
            }
        },
        Some(ResponseData::OrderbookData(o)) => {
            let ghost g = o;
            buf.push((market, Data::OrderbookData(o)));
            proof {
                assert(buf@ =~= before + seq![(market, Data::OrderbookData(g))]);
            }
        },
        Some(ResponseData::Fill(f)) => {
            let ghost g = f;
            buf.push((market, Data::Fill(f)));
            proof {
                assert(buf@ =~= before + seq![(market, Data::Fill(g))]);
            }
        },
        Some(ResponseData::Order(o)) => {
            let ghost g = o;
            buf.push((market, Data::Order(o)));
            proof {
                assert(buf@ =~= before + seq![(market, Data::Order(g))]);
            }
        },
    }
}

fn request_for(subscribe: bool, c: &Channel) -> (r: Outbound)
    ensures
        request_frame(subscribe, r, c@),
{
    if subscribe {
        Outbound::Subscribe(c.duplicate())
    } else {
        Outbound::Unsubscribe(c.duplicate())
    }
}

/// The login frame of a session opened with `options` at `timestamp`
/// milliseconds: present exactly when both a key and a secret are configured,
/// and signed over `<timestamp>websocket_login`.
pub fn login_frame(options: &Options, timestamp: u64) -> (r: Option<Outbound>)
    ensures
        r is Some <==> (options.key is Some && options.secret is Some),
        r matches Some(Outbound::Login { key, sign, time, subaccount }) ==> {
            &&& key == options.key->Some_0
            &&& sign@ == signature(options.secret->Some_0@, login_payload(timestamp as nat))
            &&& time == timestamp
            &&& subaccount == options.subaccount
        },
        r matches Some(o) ==> o is Login,
{
    match (&options.key, &options.secret) {
        (Some(key), Some(secret)) => {
            let sign = login_signature(secret.as_str(), timestamp);
            let subaccount = copy_symbol(&options.subaccount);
            Some(Outbound::Login { key: key.clone(), sign, time: timestamp, subaccount })
        },
        _ => None,
    }
}

impl Session {
    pub closed spec fn wf(&self) -> bool {
        &&& match self.pending {
            Some(p) => p.next < p.channels@.len() && p.waited < LOOKAHEAD,
            None => true,
        }
        &&& self.failed matches Some(e) ==> is_fatal(e)
    }

    /// A session whose login frame, if any, has been sent: it is
    /// authenticated exactly when one was.
    pub fn new(is_authenticated: bool) -> (r: Session)
        ensures
            r@ == (SessionView {
                failed: None,
                active: Set::empty(),
                order: Seq::empty(),
                buffer: Seq::empty(),
                authenticated: is_authenticated,
                pending: None,
            }),
            r.wf(),
    {
        let r = Session {
            failed: None,
            channels: Vec::new(),
            buf: Vec::new(),
            is_authenticated,
            pending: None,
        };
        proof {
            assert(channel_set(r.channels@) =~= Set::empty());
            assert(channel_views(r.channels@) =~= Seq::empty());
        }
        r
    }

    pub fn is_authenticated(&self) -> (r: bool)
        ensures
            r == self@.authenticated,
    {
        self.is_authenticated
    }

    /// The channels subscribed to.
    pub fn active_channels(&self) -> (r: &Vec<Channel>)
        ensures
            channel_set(r@) == self@.active,
    {
        &self.channels
    }

    /// The number of items waiting for the consumer.
    pub fn buffered(&self) -> (r: usize)
        ensures
            r == self@.buffer.len(),
    {
        self.buf.len()
    }

    /// Starts subscribing to `channels`, one after the other, abandoning any
    /// operation in progress. On an anonymous session a private channel fails
    /// the whole request with `SocketNotAuthenticated`, and nothing changes.
    pub fn subscribe(&mut self, channels: Vec<Channel>) -> (r: Step)
        requires
            old(self).wf(),
        ensures
            final(self).wf(),
            final(self)@.active == old(self)@.active,
            final(self)@.buffer == old(self)@.buffer,
            final(self)@.authenticated == old(self)@.authenticated,
            final(self)@.failed == old(self)@.failed,
            (!old(self)@.authenticated && exists|i: int|
                0 <= i < channels@.len() && is_private(#[trigger] channels@[i]@)) ==> {
                &&& r matches Step::Done(Err(Error::SocketNotAuthenticated))
                &&& final(self)@ == old(self)@
            },
            (old(self)@.authenticated || forall|i: int|
                0 <= i < channels@.len() ==> !is_private(#[trigger] channels@[i]@)) ==> {
                if channels@.len() == 0 {
                    &&& r matches Step::Done(Ok(()))
                    &&& final(self)@ == old(self)@
                } else {
                    &&& r matches Step::Send(o) && request_frame(true, o, channels@[0]@)
                    &&& final(self)@.pending == Some(
                        PendingView { subscribe: true, channels: channel_views(channels@), next: 0, waited: 0 },
                    )
                }
            },
    {
        if !self.is_authenticated {
            let mut i: usize = 0;
            while i < channels.len()
                invariant
                    i <= channels@.len(),
                    forall|k: int| 0 <= k < i ==> !is_private(#[trigger] channels@[k]@),
                    !self.is_authenticated,
                    *self == *old(self),
                    old(self).wf(),
                decreases channels@.len() - i,
            {
                if channels[i].is_private() {
                    assert(is_private(channels@[i as int]@));
                    return Step::Done(Err(Error::SocketNotAuthenticated));
                }
                i = i + 1;
            }
        }
        self.start(true, channels)
    }

    /// Starts unsubscribing from `channels`, one after the other, abandoning
    /// any operation in progress. A channel that is not active fails the
    /// whole request with `NotSubscribedToThisChannel`, and nothing changes.
    pub fn unsubscribe(&mut self, channels: Vec<Channel>) -> (r: Step)
        requires
            old(self).wf(),
        ensures
            final(self).wf(),
            final(self)@.active == old(self)@.active,
            final(self)@.buffer == old(self)@.buffer,
            final(self)@.authenticated == old(self)@.authenticated,
            final(self)@.failed == old(self)@.failed,
            (exists|i: int| 0 <= i < channels@.len() && !old(self)@.active.contains(#[trigger] channels@[i]@)) ==> {
                &&& r matches Step::Done(Err(Error::NotSubscribedToThisChannel(c)))
                &&& exists|i: int|
                    0 <= i < channels@.len() && c@ == channels@[i]@ && !old(self)@.active.contains(c@)
                        && forall|j: int| 0 <= j < i ==> old(self)@.active.contains(#[trigger] channels@[j]@)
                &&& final(self)@ == old(self)@
            },
            (forall|i: int| 0 <= i < channels@.len() ==> old(self)@.active.contains(#[trigger] channels@[i]@)) ==> {
                if channels@.len() == 0 {
                    &&& r matches Step::Done(Ok(()))
                    &&& final(self)@ == old(self)@
                } else {
                    &&& r matches Step::Send(o) && request_frame(false, o, channels@[0]@)
                    &&& final(self)@.pending == Some(
                        PendingView { subscribe: false, channels: channel_views(channels@), next: 0, waited: 0 },
                    )
                }
            },
    {
        let mut i: usize = 0;
        while i < channels.len()
            invariant
                i <= channels@.len(),
                forall|k: int| 0 <= k < i ==> self@.active.contains(#[trigger] channels@[k]@),
                *self == *old(self),
                old(self).wf(),
            decreases channels@.len() - i,
        {
            if !contains_channel(&self.channels, &channels[i]) {
                let c = channels[i].duplicate();
                assert(c@ == channels@[i as int]@);
                return Step::Done(Err(Error::NotSubscribedToThisChannel(c)));
            }
            i = i + 1;
        }
        self.start(false, channels)
    }

    /// Starts unsubscribing from every active channel, in the order they were
    /// acknowledged, abandoning any operation in progress.
    pub fn unsubscribe_all(&mut self) -> (r: Step)
        requires
            old(self).wf(),
        ensures
            final(self).wf(),
            final(self)@.active == old(self)@.active,
            final(self)@.buffer == old(self)@.buffer,
            final(self)@.authenticated == old(self)@.authenticated,
            final(self)@.failed == old(self)@.failed,
            old(self)@.order.len() == 0 ==> (r matches Step::Done(Ok(()))) && final(self)@ == old(self)@,
            old(self)@.order.len() > 0 ==> {
                &&& r matches Step::Send(o) && request_frame(false, o, old(self)@.order[0])
                &&& final(self)@.pending == Some(
                    PendingView { subscribe: false, channels: old(self)@.order, next: 0, waited: 0 },
                )
            },
    {
        let mut all: Vec<Channel> = Vec::new();
        let mut i: usize = 0;
        while i < self.channels.len()
            invariant
                i <= self.channels@.len(),
                all@.len() == i,
                *self == *old(self),
                old(self).wf(),
                forall|k: int| 0 <= k < i ==> (#[trigger] all@[k])@ == self.channels@[k]@,
            decreases self.channels@.len() - i,
        {
            all.push(self.channels[i].duplicate());
            i = i + 1;
        }
        proof {
            assert forall|k: int| 0 <= k < all@.len() implies self@.active.contains(#[trigger] all@[k]@) by {
                assert(self.channels@[k]@ == all@[k]@);
            }
            assert(channel_views(all@) =~= channel_views(self.channels@));
        }
        self.unsubscribe(all)
    }

    fn start(&mut self, subscribe: bool, channels: Vec<Channel>) -> (r: Step)
        requires
            old(self).wf(),
        ensures
            final(self).wf(),
            final(self)@.active == old(self)@.active,
            final(self)@.buffer == old(self)@.buffer,
            final(self)@.authenticated == old(self)@.authenticated,
            final(self)@.failed == old(self)@.failed,
            channels@.len() == 0 ==> (r matches Step::Done(Ok(()))) && final(self)@ == old(self)@,
            channels@.len() > 0 ==> {
                &&& r matches Step::Send(o) && request_frame(subscribe, o, channels@[0]@)
                &&& final(self)@.pending == Some(
                    PendingView { subscribe, channels: channel_views(channels@), next: 0, waited: 0 },
                )
            },
    {
        if channels.len() == 0 {
            return Step::Done(Ok(()));
        }
        let first = request_for(subscribe, &channels[0]);
        self.pending = Some(Pending { subscribe, channels, next: 0, waited: 0 });
        Step::Send(first)
    }

    /// The heartbeat: a ping to send. It changes nothing, so nothing of it
    /// reaches the consumer.
    pub fn on_tick(&self) -> (r: Outbound)
        ensures
            r is Ping,
    {
        Outbound::Ping
    }

    /// Handles an inbound frame. A pong is dropped. While an operation waits,
    /// its acknowledgement applies the awaited channel to the active set and
    /// moves on to the next channel; any other frame goes to the buffer and
    /// counts towards the lookahead, which ends the operation with
    /// `MissingSubscriptionConfirmation` once exhausted. Outside an operation
    /// acknowledgements are dropped and other frames go to the buffer.
    pub fn on_response(&mut self, response: Response) -> (r: Step)
        requires
            old(self).wf(),
        ensures
            final(self).wf(),
            final(self)@.authenticated == old(self)@.authenticated,
            final(self)@.failed == old(self)@.failed,
            response.kind == Type::Pong ==> final(self)@ == old(self)@ && r is Receive,
            response.kind != Type::Pong ==> match old(self)@.pending {
                None => {
                    &&& r is Receive
                    &&& final(self)@.active == old(self)@.active
                    &&& final(self)@.pending is None
                    &&& final(self)@.buffer == old(self)@.buffer + if response.kind == Type::Subscribed
                        || response.kind == Type::Unsubscribed {
                        Seq::empty()
                    } else {
                        response_items(response.market, response.data)
                    }
                },
                Some(p) => if acknowledges(p.subscribe, response.kind) {
                    &&& final(self)@.active == after_ack(old(self)@.active, p.subscribe, p.channels[p.next as int])
                    &&& final(self)@.buffer == old(self)@.buffer
                    &&& if p.next + 1 == p.channels.len() {
                        &&& r matches Step::Done(Ok(()))
                        &&& final(self)@.pending is None
                    } else {
                        &&& r matches Step::Send(o) && request_frame(p.subscribe, o, p.channels[p.next + 1int])
                        &&& final(self)@.pending == Some(PendingView { next: p.next + 1, waited: 0, ..p })
                    }
                } else {
                    &&& final(self)@.active == old(self)@.active
                    &&& final(self)@.buffer == old(self)@.buffer + response_items(response.market, response.data)
                    &&& if p.waited + 1 >= LOOKAHEAD {
                        &&& r matches Step::Done(Err(Error::MissingSubscriptionConfirmation))
                        &&& final(self)@.pending is None
                    } else {
                        &&& r is Receive
                        &&& final(self)@.pending == Some(PendingView { waited: p.waited + 1, ..p })
                    }
                },
            },
    {
        if response.kind == Type::Pong {
            return Step::Receive;
        }
        let pending = self.pending.take();
        match pending {
            None => {
                if response.kind != Type::Subscribed && response.kind != Type::Unsubscribed {
                    push_items(&mut self.buf, response.market, response.data);
                } else {
                    proof {
                        assert(self.buf@ + Seq::<Item>::empty() =~= self.buf@);
                    }
                }
                Step::Receive
            },
            Some(mut p) => {
                assert(p.next < p.channels@.len() && p.waited < LOOKAHEAD);
                let count = p.channels.len();
                let ack = if p.subscribe {
                    response.kind == Type::Subscribed
                } else {
                    response.kind == Type::Unsubscribed
                };
                if ack {
                    let ghost pv = channel_views(p.channels@);
                    proof {
                        assert(pv[p.next as int] == p.channels@[p.next as int]@);
                    }
                    if p.subscribe {
                        add_channel(&mut self.channels, &p.channels[p.next]);
                    } else {
                        remove_channel(&mut self.channels, &p.channels[p.next]);
                    }
                    if p.next + 1 == count {
                        Step::Done(Ok(()))
                    } else {
                        let next = p.next + 1;
                        let o = request_for(p.subscribe, &p.channels[next]);
                        proof {
                            assert(pv[next as int] == p.channels@[next as int]@);
                        }
                        p.next = next;
                        p.waited = 0;
                        self.pending = Some(p);
                        Step::Send(o)
                    }
                } else {
                    push_items(&mut self.buf, response.market, response.data);
                    if p.waited + 1 >= LOOKAHEAD {
                        Step::Done(Err(Error::MissingSubscriptionConfirmation))
                    } else {
                        p.waited = p.waited + 1;
                        self.pending = Some(p);
                        Step::Receive
                    }
                }
            },
        }
    }

    /// The oldest buffered item, if any, in arrival order.
    pub fn next_item(&mut self) -> (r: Option<Item>)
        ensures
            final(self).wf() == old(self).wf(),
            final(self)@.active == old(self)@.active,
            final(self)@.pending == old(self)@.pending,
            final(self)@.authenticated == old(self)@.authenticated,
            final(self)@.failed == old(self)@.failed,
            old(self)@.buffer.len() == 0 ==> r is None && final(self)@ == old(self)@,
            old(self)@.buffer.len() > 0 ==> {
                &&& r == Some(old(self)@.buffer[0])
                &&& final(self)@.buffer == old(self)@.buffer.drop_first()
            },
    {
        if self.buf.len() == 0 {
            None
        } else {
            let item = self.buf.remove(0);
            proof {
                assert(self.buf@ =~= old(self)@.buffer.drop_first());
            }
            Some(item)
        }
    }
}

/// Errors after which a session is dropped: the socket or the decoding failed.
pub open spec fn is_fatal(e: Error) -> bool {
    e is Transport || e is Codec
}

impl Session {
    /// Records a fatal error; from then on `failure` reports it.
    pub fn fail(&mut self, error: Error)
        requires
            old(self).wf(),
            is_fatal(error),
        ensures
            final(self).wf(),
            final(self)@ == (SessionView { failed: Some(error), ..old(self)@ }),
    {
        self.failed = Some(error);
    }

    /// The fatal error that ended the session, if any: every operation of a
    /// failed session should return it.
    pub fn failure(&self) -> (r: Option<Error>)
        requires
            self.wf(),
        ensures
            r == self@.failed,
    {
        match &self.failed {
            Some(Error::Transport(m)) => Some(Error::Transport(m.clone())),
            Some(Error::Codec(m)) => Some(Error::Codec(m.clone())),
            _ => None,
        }
    }
}

/// Subscribing to a channel that is not active and then unsubscribing from
/// it leaves the active set as it was.
pub proof fn lemma_subscribe_then_unsubscribe(active: Set<ChannelView>, c: ChannelView)
    requires
        !active.contains(c),
    ensures
        after_ack(after_ack(active, true, c), false, c) == active,
{
    assert(active.insert(c).remove(c) =~= active);
}

/// The active set after acknowledgements `acks`, each `(subscribe, channel)`,
/// arrived in order.
pub open spec fn after_acks(active: Set<ChannelView>, acks: Seq<(bool, ChannelView)>) -> Set<ChannelView>
    decreases acks.len(),
{
    if acks.len() == 0 {
        active
    } else {
        after_ack(after_acks(active, acks.drop_last()), acks.last().0, acks.last().1)
    }
}

/// The kind of the last acknowledgement for `c` among `acks`: `true` for a
/// subscribe, `false` for an unsubscribe, `None` where there is none.
pub open spec fn last_ack(acks: Seq<(bool, ChannelView)>, c: ChannelView) -> Option<bool>
    decreases acks.len(),
{
    if acks.len() == 0 {
        None
    } else if acks.last().1 == c {
        Some(acks.last().0)
    } else {
        last_ack(acks.drop_last(), c)
    }
}

/// After any sequence of acknowledgements a channel is active exactly when
/// its last acknowledgement was a subscribe, or, with none, when it was
/// active before.
pub proof fn lemma_active_follows_last_ack(
    active: Set<ChannelView>,
    acks: Seq<(bool, ChannelView)>,
    c: ChannelView,
)
    ensures
        after_acks(active, acks).contains(c) == match last_ack(acks, c) {
            Some(subscribed) => subscribed,
            None => active.contains(c),
        },
    decreases acks.len(),
{
    if acks.len() > 0 {
        lemma_active_follows_last_ack(active, acks.drop_last(), c);
    }
}

} // verus!
