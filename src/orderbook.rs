//! The client-side order book replica: two price ladders rebuilt from a
//! snapshot and a stream of deltas, checked against the exchange's CRC32.

use crate::decimal::{
    Decimal, normalized, decimal_difference, decimal_product, decimal_quotient, decimal_sum,
    exponent_text, lemma_lt_same_scale, lemma_lt_transitive, lemma_trichotomy, one_place_text,
    plain_text,
};
use crate::model::{Side, Symbol, Timestamp};
use crate::ws::Error;
use vstd::prelude::*;

verus! {

/// A price level: `(price, size)`.
pub type Level = (Decimal, Decimal);

/// `a` comes before `b` in a ladder: higher first for bids (`descending`),
/// lower first for asks.
pub open spec fn before(a: Decimal, b: Decimal, descending: bool) -> bool {
    if descending {
        b.lt(a)
    } else {
        a.lt(b)
    }
}

/// A ladder holds valid decimals, positive sizes only, and strictly
/// increasing distance from the top of the book.
pub open spec fn ladder_wf(l: Seq<Level>, descending: bool) -> bool {
    &&& forall|i: int|
        0 <= i < l.len() ==> {
            &&& (#[trigger] l[i]).0.wf()
            &&& l[i].1.wf()
            &&& l[i].1.is_positive_spec()
        }
    &&& forall|i: int, j: int|
        0 <= i < j < l.len() ==> before(#[trigger] l[i].0, #[trigger] l[j].0, descending)
}

/// The levels of a frame that may be applied: valid decimals.
pub open spec fn levels_wf(l: Seq<Level>) -> bool {
    forall|i: int| 0 <= i < l.len() ==> (#[trigger] l[i]).0.wf() && l[i].1.wf()
}

/// The ladder after setting the size at `price`: a size of zero (or below,
/// which no valid frame holds) removes the level at that price, if any; a
/// positive size overwrites it (the stored price is kept) or inserts a new
/// level in its place.
pub open spec fn upsert(l: Seq<Level>, price: Decimal, size: Decimal, descending: bool) -> Seq<
    Level,
>
    decreases l.len(),
{
    if l.len() == 0 {
        if !size.is_positive_spec() {
            seq![]
        } else {
            seq![(price, size)]
        }
    } else if before(l[0].0, price, descending) {
        seq![l[0]] + upsert(l.drop_first(), price, size, descending)
    } else if l[0].0.same_value(price) {
        if !size.is_positive_spec() {
            l.drop_first()
        } else {
            seq![(l[0].0, size)] + l.drop_first()
        }
    } else if !size.is_positive_spec() {
        l
    } else {
        seq![(price, size)] + l
    }
}

/// The ladder after applying each level of `levels` in turn.
pub open spec fn apply_levels(l: Seq<Level>, levels: Seq<Level>, descending: bool) -> Seq<Level>
    decreases levels.len(),
{
    if levels.len() == 0 {
        l
    } else {
        let last = levels.last();
        upsert(apply_levels(l, levels.drop_last(), descending), last.0, last.1, descending)
    }
}

proof fn lemma_upsert_keys(l: Seq<Level>, price: Decimal, size: Decimal, descending: bool)
    ensures
        forall|j: int|
            0 <= j < upsert(l, price, size, descending).len() ==> {
                ||| (#[trigger] upsert(l, price, size, descending)[j]) == (price, size)
                ||| exists|k: int|
                    0 <= k < l.len() && upsert(l, price, size, descending)[j].0 == #[trigger] l[k].0
                        && (upsert(l, price, size, descending)[j].1 == l[k].1
                        || upsert(l, price, size, descending)[j].1 == size)
            },
    decreases l.len(),
{
    let r = upsert(l, price, size, descending);
    if l.len() > 0 {
        let rest = l.drop_first();
        lemma_upsert_keys(rest, price, size, descending);
        assert forall|j: int| 0 <= j < r.len() implies {
            ||| (#[trigger] r[j]) == (price, size)
            ||| exists|k: int| 0 <= k < l.len() && r[j].0 == #[trigger] l[k].0 && (r[j].1 == l[k].1 || r[j].1 == size)
        } by {
            if before(l[0].0, price, descending) {
                if j == 0 {
                    assert(r[j].0 == l[0].0);
                } else {
                    let ur = upsert(rest, price, size, descending);
                    assert(r[j] == ur[j - 1]);
                    if ur[j - 1] != (price, size) {
                        let k = choose|k: int| 0 <= k < rest.len() && ur[j - 1].0 == #[trigger] rest[k].0 && (ur[j - 1].1 == rest[k].1 || ur[j - 1].1 == size);
                        assert(rest[k] == l[k + 1]);
                    }
                }
            } else if l[0].0.same_value(price) {
                if !size.is_positive_spec() {
                    assert(r[j] == l[j + 1]);
                } else if j == 0 {
                    assert(r[j].0 == l[0].0);
                } else {
                    assert(r[j] == l[j]);
                }
            } else if !size.is_positive_spec() {
                assert(r[j] == l[j]);
            } else if j > 0 {
                assert(r[j] == l[j - 1]);
            }
        }
    }
}

/// Applying a level keeps a ladder well formed.
pub proof fn lemma_upsert_wf(l: Seq<Level>, price: Decimal, size: Decimal, descending: bool)
    requires
        ladder_wf(l, descending),
        price.wf(),
        size.wf(),
    ensures
        ladder_wf(upsert(l, price, size, descending), descending),
    decreases l.len(),
{
    let r = upsert(l, price, size, descending);
    if l.len() == 0 {
        return;
    }
    let rest = l.drop_first();
    assert(ladder_wf(rest, descending)) by {
        assert forall|i: int, j: int| 0 <= i < j < rest.len() implies before(
            #[trigger] rest[i].0,
            #[trigger] rest[j].0,
            descending,
        ) by {
            assert(rest[i] == l[i + 1] && rest[j] == l[j + 1]);
        }
    }
    lemma_trichotomy(l[0].0, price);
    if before(l[0].0, price, descending) {
        lemma_upsert_wf(rest, price, size, descending);
        lemma_upsert_keys(rest, price, size, descending);
        let ur = upsert(rest, price, size, descending);
        assert(r == seq![l[0]] + ur);
        assert forall|i: int, j: int| 0 <= i < j < r.len() implies before(
            #[trigger] r[i].0,
            #[trigger] r[j].0,
            descending,
        ) by {
            if i == 0 {
                assert(r[j] == ur[j - 1]);
                if ur[j - 1] != (price, size) {
                    let k = choose|k: int| 0 <= k < rest.len() && ur[j - 1].0 == #[trigger] rest[k].0 && (ur[j - 1].1 == rest[k].1 || ur[j - 1].1 == size);
                    assert(rest[k] == l[k + 1]);
                }
            } else {
                assert(r[i] == ur[i - 1] && r[j] == ur[j - 1]);
            }
        }
        assert forall|i: int| 0 <= i < r.len() implies {
            &&& (#[trigger] r[i]).0.wf()
            &&& r[i].1.wf()
            &&& r[i].1.is_positive_spec()
        } by {
            if i > 0 {
                assert(r[i] == ur[i - 1]);
            }
        }
    } else if l[0].0.same_value(price) {
        if !size.is_positive_spec() {
        } else {
            assert forall|i: int, j: int| 0 <= i < j < r.len() implies before(
                #[trigger] r[i].0,
                #[trigger] r[j].0,
                descending,
            ) by {
                assert(r[j] == l[j]);
                if i > 0 {
                    assert(r[i] == l[i]);
                }
            }
            assert forall|i: int| 0 <= i < r.len() implies {
                &&& (#[trigger] r[i]).0.wf()
                &&& r[i].1.wf()
                &&& r[i].1.is_positive_spec()
            } by {
                if i > 0 {
                    assert(r[i] == l[i]);
                }
            }
        }
    } else if !size.is_positive_spec() {
    } else {
        assert(before(price, l[0].0, descending));
        assert forall|i: int, j: int| 0 <= i < j < r.len() implies before(
            #[trigger] r[i].0,
            #[trigger] r[j].0,
            descending,
        ) by {
            assert(r[j] == l[j - 1]);
            if i > 0 {
                assert(r[i] == l[i - 1]);
            } else if j > 1 {
                assert(before(l[0].0, l[j - 1].0, descending));
                if descending {
                    lemma_lt_transitive(l[j - 1].0, l[0].0, price);
                } else {
                    lemma_lt_transitive(price, l[0].0, l[j - 1].0);
                }
            }
        }
        assert forall|i: int| 0 <= i < r.len() implies {
            &&& (#[trigger] r[i]).0.wf()
            &&& r[i].1.wf()
            &&& r[i].1.is_positive_spec()
        } by {
            if i > 0 {
                assert(r[i] == l[i - 1]);
            }
        }
    }
}

proof fn lemma_upsert_prefix(
    l: Seq<Level>,
    price: Decimal,
    size: Decimal,
    descending: bool,
    i: int,
)
    requires
        0 <= i <= l.len(),
        forall|k: int| 0 <= k < i ==> before(#[trigger] l[k].0, price, descending),
    ensures
        upsert(l, price, size, descending) == l.take(i) + upsert(l.skip(i), price, size, descending),
    decreases i,
{
    if i == 0 {
        assert(l.take(0) + l.skip(0) =~= l);
        assert(l.skip(0) =~= l);
    } else {
        let rest = l.drop_first();
        assert(before(l[0].0, price, descending));
        assert forall|k: int| 0 <= k < i - 1 implies before(#[trigger] rest[k].0, price, descending) by {
            assert(rest[k] == l[k + 1]);
        }
        lemma_upsert_prefix(rest, price, size, descending, i - 1);
        assert(rest.skip(i - 1) =~= l.skip(i));
        assert(seq![l[0]] + rest.take(i - 1) =~= l.take(i));
    }
}

/// Sets the size at `price` in a ladder; a size that is not positive removes the level.
fn upsert_level(ladder: &mut Vec<Level>, price: Decimal, size: Decimal, descending: bool)
    requires
        ladder_wf(old(ladder)@, descending),
        price.wf(),
        size.wf(),
    ensures
        final(ladder)@ == upsert(old(ladder)@, price, size, descending),
        ladder_wf(final(ladder)@, descending),
{
    proof {
        lemma_upsert_wf(ladder@, price, size, descending);
    }
    let ghost l = ladder@;
    let mut i: usize = 0;
    loop
        invariant
            ladder@ == l,
            ladder_wf(l, descending),
            price.wf(),
            0 <= i <= l.len(),
            forall|k: int| 0 <= k < i ==> before(#[trigger] l[k].0, price, descending),
        ensures
            0 <= i <= l.len(),
            i < l.len() ==> !before(l[i as int].0, price, descending),
            forall|k: int| 0 <= k < i ==> before(#[trigger] l[k].0, price, descending),
        decreases l.len() - i,
    {
        if i >= ladder.len() {
            break;
        }
        let key = ladder[i].0;
        let ahead = if descending {
            price.less_than(&key)
        } else {
            key.less_than(&price)
        };
        if !ahead {
            break;
        }
        i = i + 1;
    }
    proof {
        lemma_upsert_prefix(l, price, size, descending, i as int);
    }
    let ghost tail = l.skip(i as int);
    if i < ladder.len() && ladder[i].0.equals(&price) {
        let key = ladder[i].0;
        proof {
            assert(tail[0] == l[i as int]);
            assert(tail.drop_first() =~= l.skip(i + 1));
        }
        ladder.remove(i);
        if size.is_positive() {
            ladder.insert(i, (key, size));
        }
        proof {
            if !size.is_positive_spec() {
                assert(ladder@ =~= l.take(i as int) + tail.drop_first());
            } else {
                assert(ladder@ =~= l.take(i as int) + (seq![(key, size)] + tail.drop_first()));
            }
        }
    } else {
        proof {
            if i < l.len() {
                assert(tail[0] == l[i as int]);
                lemma_trichotomy(l[i as int].0, price);
            } else {
                assert(tail.len() == 0);
            }
        }
        if size.is_positive() {
            ladder.insert(i, (price, size));
            proof {
                assert(ladder@ =~= l.take(i as int) + (seq![(price, size)] + tail));
            }
        } else {
            proof {
                assert(l.take(i as int) + tail =~= l);
            }
        }
    }
}

// ---------------------------------------------------------------------------
// Checksum text

/// Values below this (0.0001) are written in scientific notation.
pub open spec fn small_threshold() -> Decimal {
    Decimal { mantissa: 1, scale: 4 }
}

/// Pads a one-digit negative exponent of a scientific rendering to two
/// digits by writing a `0` after the `-` (`7.5e-5` becomes `7.5e-05`); a
/// rendering whose first `-` is not followed by exactly one character is kept.
pub open spec fn pad_exponent(t: Seq<char>) -> Seq<char>
    decreases t.len(),
{
    if t.len() == 0 {
        t
    } else if t[0] == '-' {
        if t.len() == 2 {
            seq!['-', '0'] + t.drop_first()
        } else {
            t
        }
    } else {
        seq![t[0]] + pad_exponent(t.drop_first())
    }
}

/// The checksum token of a value: whole numbers with one decimal place,
/// values below 0.0001 in scientific notation with a two-digit exponent, and
/// the plain decimal text otherwise; neither of the last two keeps trailing
/// zeros after the point.
pub open spec fn token_text(d: Decimal) -> Seq<char> {
    if d.is_integral_spec() {
        one_place_text(d)
    } else if d.lt(small_threshold()) {
        pad_exponent(exponent_text(normalized(d)))
    } else {
        plain_text(normalized(d))
    }
}

/// The number of best levels per side that the checksum covers.
pub const CHECKSUM_DEPTH: usize = 100;

/// The tokens of position `k`: the bid's price and size, then the ask's,
/// each only where that side reaches position `k`.
pub open spec fn position_tokens(bids: Seq<Level>, asks: Seq<Level>, k: int) -> Seq<Seq<char>> {
    (if k < bids.len() {
        seq![token_text(bids[k].0), token_text(bids[k].1)]
    } else {
        Seq::<Seq<char>>::empty()
    }) + (if k < asks.len() {
        seq![token_text(asks[k].0), token_text(asks[k].1)]
    } else {
        Seq::<Seq<char>>::empty()
    })
}

/// The tokens of the first `n` positions.
pub open spec fn checksum_tokens(bids: Seq<Level>, asks: Seq<Level>, n: nat) -> Seq<Seq<char>>
    decreases n,
{
    if n == 0 {
        Seq::<Seq<char>>::empty()
    } else {
        checksum_tokens(bids, asks, (n - 1) as nat) + position_tokens(bids, asks, n - 1)
    }
}

/// The number of positions the checksum covers.
pub open spec fn checksum_depth(bids: Seq<Level>, asks: Seq<Level>) -> nat {
    let deepest = if bids.len() >= asks.len() {
        bids.len()
    } else {
        asks.len()
    };
    if deepest <= CHECKSUM_DEPTH {
        deepest
    } else {
        CHECKSUM_DEPTH as nat
    }
}

/// Tokens joined with `:`.
pub open spec fn join_tokens(ts: Seq<Seq<char>>) -> Seq<char>
    decreases ts.len(),
{
    if ts.len() == 0 {
        Seq::<char>::empty()
    } else if ts.len() == 1 {
        ts[0]
    } else {
        join_tokens(ts.drop_last()) + seq![':'] + ts.last()
    }
}

/// The text whose CRC32 the exchange sends with each order book frame, for
/// ladders held best-first.
pub open spec fn checksum_text(bids: Seq<Level>, asks: Seq<Level>) -> Seq<char> {
    join_tokens(checksum_tokens(bids, asks, checksum_depth(bids, asks)))
}

/// The CRC32 (IEEE) of the UTF-8 bytes of a text, as `crc32fast` computes it.
pub uninterp spec fn crc32_of(text: Seq<char>) -> u32;

/// Relies on `crc32fast::hash`: the IEEE CRC32 of the bytes given.
#[verifier::external_body]
fn crc32(text: &str) -> (r: u32)
    ensures
        r == crc32_of(text@),
{
    crc32fast::hash(text.as_bytes())
}

proof fn lemma_pad_prefix(t: Seq<char>, i: int)
    requires
        0 <= i <= t.len(),
        forall|k: int| 0 <= k < i ==> t[k] != '-',
    ensures
        pad_exponent(t) == t.take(i) + pad_exponent(t.skip(i)),
    decreases i,
{
    if i == 0 {
        assert(t.skip(0) =~= t);
        assert(t.take(0) + t =~= t);
    } else {
        let rest = t.drop_first();
        assert forall|k: int| 0 <= k < i - 1 implies rest[k] != '-' by {
            assert(rest[k] == t[k + 1]);
        }
        lemma_pad_prefix(rest, i - 1);
        assert(rest.skip(i - 1) =~= t.skip(i));
        assert(seq![t[0]] + rest.take(i - 1) =~= t.take(i));
    }
}

/// Writes a `0` after the first `-` of a text, if there is one.
fn pad_exponent_text(t: String) -> (r: String)
    ensures
        r@ == pad_exponent(t@),
{
    let n = t.unicode_len();
    let mut i: usize = 0;
    loop
        invariant
            n == t@.len(),
            0 <= i <= n,
            forall|k: int| 0 <= k < i ==> t@[k] != '-',
        ensures
            0 <= i <= n,
            i < n ==> t@[i as int] == '-',
            forall|k: int| 0 <= k < i ==> t@[k] != '-',
        decreases n - i,
    {
        if i >= n {
            break;
        }
        if t.get_char(i) == '-' {
            break;
        }
        i = i + 1;
    }
    proof {
        lemma_pad_prefix(t@, i as int);
    }
    if i == n || n - i != 2 {
        proof {
            assert(t@.take(i as int) + t@.skip(i as int) =~= t@);
            if i == n {
                assert(t@.skip(i as int).len() == 0);
            }
        }
        t
    } else {
        let head = t.substring_char(0, i + 1);
        let tail = t.substring_char(i + 1, n);
        let mut r = String::from_str(head);
        proof {
            reveal_strlit("0");
        }
        r.append("0");
        r.append(tail);
        proof {
            let sk = t@.skip(i as int);
            assert(sk[0] == '-');
            assert(sk.drop_first() =~= t@.skip(i + 1));
            assert(head@ =~= t@.take(i as int) + seq!['-']);
            assert(r@ =~= t@.take(i as int) + (seq!['-', '0'] + sk.drop_first()));
        }
        r
    }
}

/// The checksum token of a value (see `token_text`).
pub fn format_value(value: &Decimal) -> (r: String)
    requires
        value.wf(),
    ensures
        r@ == token_text(*value),
{
    let threshold = Decimal { mantissa: 1, scale: 4 };
    if value.is_integral() {
        crate::decimal::rust_decimal_one_place(value)
    } else if value.less_than(&threshold) {
        pad_exponent_text(crate::decimal::rust_decimal_exponent(&value.normalize()))
    } else {
        value.normalize().to_plain_string()
    }
}

proof fn lemma_join_push(ts: Seq<Seq<char>>, t: Seq<char>)
    ensures
        join_tokens(ts.push(t)) == if ts.len() == 0 {
            t
        } else {
            join_tokens(ts) + seq![':'] + t
        },
{
    assert(ts.push(t).drop_last() =~= ts);
}

/// Appends one token to the joined text of `count` tokens.
fn push_token(text: &mut String, count: usize, token: &str, Ghost(tokens): Ghost<Seq<Seq<char>>>)
    requires
        old(text)@ == join_tokens(tokens),
        count == tokens.len(),
    ensures
        final(text)@ == join_tokens(tokens.push(token@)),
{
    proof {
        lemma_join_push(tokens, token@);
        reveal_strlit(":");
    }
    if count > 0 {
        text.append(":");
    }
    text.append(token);
}

/// The checksum text of two best-first ladders.
pub fn checksum_text_of(bids: &Vec<Level>, asks: &Vec<Level>) -> (r: String)
    requires
        levels_wf(bids@),
        levels_wf(asks@),
    ensures
        r@ == checksum_text(bids@, asks@),
{
    let deepest = if bids.len() >= asks.len() {
        bids.len()
    } else {
        asks.len()
    };
    let depth = if deepest <= CHECKSUM_DEPTH {
        deepest
    } else {
        CHECKSUM_DEPTH
    };
    let mut text = String::new();
    let mut count: usize = 0;
    let ghost mut tokens: Seq<Seq<char>> = Seq::empty();
    let mut k: usize = 0;
    while k < depth
        invariant
            depth == checksum_depth(bids@, asks@),
            depth <= CHECKSUM_DEPTH,
            k <= depth,
            levels_wf(bids@),
            levels_wf(asks@),
            tokens == checksum_tokens(bids@, asks@, k as nat),
            text@ == join_tokens(tokens),
            count == tokens.len(),
            count <= 4 * k,
        decreases depth - k,
    {
        let ghost start = tokens;
        if k < bids.len() {
            let (price, size) = bids[k];
            let p = format_value(&price);
            push_token(&mut text, count, p.as_str(), Ghost(tokens));
            proof {
                tokens = tokens.push(p@);
            }
            count = count + 1;
            let q = format_value(&size);
            push_token(&mut text, count, q.as_str(), Ghost(tokens));
            proof {
                tokens = tokens.push(q@);
            }
            count = count + 1;
        }
        let ghost mid = tokens;
        if k < asks.len() {
            let (price, size) = asks[k];
            let p = format_value(&price);
            push_token(&mut text, count, p.as_str(), Ghost(tokens));
            proof {
                tokens = tokens.push(p@);
            }
            count = count + 1;
            let q = format_value(&size);
            push_token(&mut text, count, q.as_str(), Ghost(tokens));
            proof {
                tokens = tokens.push(q@);
            }
            count = count + 1;
        }
        proof {
            assert(tokens =~= start + position_tokens(bids@, asks@, k as int));
        }
        k = k + 1;
    }
    text
}

// ---------------------------------------------------------------------------
// The replica

#[derive(Clone, Copy, Debug, PartialEq, Eq, Structural)]
pub enum OrderbookAction {
    /// A snapshot of the book.
    Partial,
    /// A delta: levels to add, change, or (with size zero) remove.
    Update,
}

/// An order book frame. Bids come highest first, asks lowest first.
#[derive(Clone, Debug)]
pub struct OrderbookData {
    pub action: OrderbookAction,
    pub bids: Vec<Level>,
    pub asks: Vec<Level>,
    pub checksum: u32,
    pub time: Timestamp,
}

/// What a replica holds: whether a snapshot came, and both ladders
/// best-first (bids descending, asks ascending).
pub ghost struct BookView {
    pub symbol: Seq<char>,
    pub initialized: bool,
    pub bids: Seq<Level>,
    pub asks: Seq<Level>,
}

/// The replica of one market's order book.
#[derive(Debug)]
pub struct Orderbook {
    initialized: bool,
    symbol: Symbol,
    bids: Vec<Level>,
    asks: Vec<Level>,
}

impl View for Orderbook {
    type V = BookView;

    closed spec fn view(&self) -> BookView {
        BookView {
            symbol: self.symbol@,
            initialized: self.initialized,
            bids: self.bids@,
            asks: self.asks@,
        }
    }
}

/// The book after a frame that is accepted: a snapshot replaces both ladders,
/// a delta is applied to them; the levels are applied in order, bids then asks.
pub open spec fn book_after(
    book: BookView,
    action: OrderbookAction,
    bids: Seq<Level>,
    asks: Seq<Level>,
) -> BookView {
    let (base_bids, base_asks) = if action == OrderbookAction::Partial {
        (Seq::<Level>::empty(), Seq::<Level>::empty())
    } else {
        (book.bids, book.asks)
    };
    BookView {
        symbol: book.symbol,
        initialized: true,
        bids: apply_levels(base_bids, bids, true),
        asks: apply_levels(base_asks, asks, false),
    }
}

pub open spec fn book_wf(book: BookView) -> bool {
    ladder_wf(book.bids, true) && ladder_wf(book.asks, false)
}

/// The levels that a market order of `quantity` takes from a best-first
/// ladder, the last one possibly in part; `None` where the ladder runs out
/// first or a difference overflows.
pub open spec fn fills(levels: Seq<Level>, remaining: Decimal) -> Option<Seq<Level>>
    decreases levels.len(),
{
    if !remaining.is_positive_spec() {
        Some(Seq::<Level>::empty())
    } else if levels.len() == 0 {
        None
    } else if !remaining.lt(levels[0].1) {
        match decimal_difference(remaining, levels[0].1) {
            None => None,
            Some(rest) => match fills(levels.drop_first(), rest) {
                None => None,
                Some(f) => Some(seq![levels[0]] + f),
            },
        }
    } else {
        Some(seq![(levels[0].0, remaining)])
    }
}

/// `acc` plus the sum of price times size over `levels`.
pub open spec fn accumulate(levels: Seq<Level>, acc: Decimal) -> Option<Decimal>
    decreases levels.len(),
{
    if levels.len() == 0 {
        Some(acc)
    } else {
        match decimal_product(levels[0].0, levels[0].1) {
            None => None,
            Some(m) => match decimal_sum(acc, m) {
                None => None,
                Some(a) => accumulate(levels.drop_first(), a),
            },
        }
    }
}

/// The average price of a market order of `quantity` on `side`, weighted by
/// size, walking the opposite ladder from its top.
pub open spec fn quote_spec(book: BookView, side: Side, quantity: Decimal) -> Option<Decimal> {
    let ladder = if side == Side::Buy {
        book.asks
    } else {
        book.bids
    };
    match fills(ladder, quantity) {
        None => None,
        Some(f) => match accumulate(f, Decimal { mantissa: 0, scale: 0 }) {
            None => None,
            Some(total) => decimal_quotient(total, quantity),
        },
    }
}

proof fn lemma_apply_levels_step(l: Seq<Level>, levels: Seq<Level>, k: int, descending: bool)
    requires
        0 <= k < levels.len(),
    ensures
        apply_levels(l, levels.take(k + 1), descending) == upsert(
            apply_levels(l, levels.take(k), descending),
            levels[k].0,
            levels[k].1,
            descending,
        ),
{
    assert(levels.take(k + 1).drop_last() =~= levels.take(k));
}

/// Applies every level of a frame's side to a ladder.
fn apply_all(ladder: &mut Vec<Level>, levels: &Vec<Level>, descending: bool)
    requires
        ladder_wf(old(ladder)@, descending),
        levels_wf(levels@),
    ensures
        final(ladder)@ == apply_levels(old(ladder)@, levels@, descending),
        ladder_wf(final(ladder)@, descending),
{
    let ghost start = ladder@;
    let mut k: usize = 0;
    while k < levels.len()
        invariant
            k <= levels.len(),
            levels_wf(levels@),
            ladder@ == apply_levels(start, levels@.take(k as int), descending),
            ladder_wf(ladder@, descending),
        decreases levels.len() - k,
    {
        proof {
            lemma_apply_levels_step(start, levels@, k as int, descending);
        }
        let (price, size) = levels[k];
        upsert_level(ladder, price, size, descending);
        k = k + 1;
    }
    proof {
        assert(levels@.take(levels.len() as int) =~= levels@);
    }
}

impl Orderbook {
    pub open spec fn wf(&self) -> bool {
        book_wf(self@)
    }

    /// An empty replica that waits for its snapshot.
    pub fn new(symbol: Symbol) -> (r: Orderbook)
        ensures
            r@ == (BookView {
                symbol: symbol@,
                initialized: false,
                bids: Seq::<Level>::empty(),
                asks: Seq::<Level>::empty(),
            }),
            r.wf(),
    {
        Orderbook { symbol, initialized: false, bids: Vec::new(), asks: Vec::new() }
    }

    pub fn symbol(&self) -> (r: &Symbol)
        ensures
            r@ == self@.symbol,
    {
        &self.symbol
    }

    pub fn is_initialized(&self) -> (r: bool)
        ensures
            r == self@.initialized,
    {
        self.initialized
    }

    /// The bids, highest price first.
    pub fn bids(&self) -> (r: &Vec<Level>)
        ensures
            r@ == self@.bids,
    {
        &self.bids
    }

    /// The asks, lowest price first.
    pub fn asks(&self) -> (r: &Vec<Level>)
        ensures
            r@ == self@.asks,
    {
        &self.asks
    }

    /// Sets the size of the bid at `price`; a size that is not positive removes it.
    pub fn insert_bid(&mut self, price: Decimal, size: Decimal)
        requires
            old(self).wf(),
            price.wf(),
            size.wf(),
        ensures
            final(self)@ == (BookView { bids: upsert(old(self)@.bids, price, size, true), ..old(self)@ }),
            final(self).wf(),
    {
        upsert_level(&mut self.bids, price, size, true);
    }

    /// Sets the size of the ask at `price`; a size that is not positive removes it.
    pub fn insert_ask(&mut self, price: Decimal, size: Decimal)
        requires
            old(self).wf(),
            price.wf(),
            size.wf(),
        ensures
            final(self)@ == (BookView { asks: upsert(old(self)@.asks, price, size, false), ..old(self)@ }),
            final(self).wf(),
    {
        upsert_level(&mut self.asks, price, size, false);
    }

    /// Applies a frame. A delta before any snapshot fails with `MissingPartial`
    /// and changes nothing. Otherwise the frame is applied, and the result is
    /// `Ok` exactly when the checksum of the new book equals the frame's; on
    /// `IncorrectChecksum` the book keeps the new state and should be dropped.
    pub fn update(&mut self, data: &OrderbookData) -> (r: Result<(), Error>)
        requires
            old(self).wf(),
            levels_wf(data.bids@),
            levels_wf(data.asks@),
        ensures
            final(self).wf(),
            !old(self)@.initialized && data.action == OrderbookAction::Update ==> {
                &&& r matches Err(Error::MissingPartial)
                &&& final(self)@ == old(self)@
            },
            final(self)@.symbol == old(self)@.symbol,
            old(self)@.initialized || data.action == OrderbookAction::Partial ==> {
                &&& final(self)@ == book_after(old(self)@, data.action, data.bids@, data.asks@)
                &&& (r matches Ok(_)) == (crc32_of(checksum_text(final(self)@.bids, final(self)@.asks))
                    == data.checksum)
                &&& r matches Err(e) ==> e is IncorrectChecksum
            },
    {
        if !self.initialized && data.action == OrderbookAction::Update {
            return Err(Error::MissingPartial);
        }
        if data.action == OrderbookAction::Partial {
            self.bids = Vec::new();
            self.asks = Vec::new();
        }
        self.initialized = true;
        apply_all(&mut self.bids, &data.bids, true);
        apply_all(&mut self.asks, &data.asks, false);
        if self.verify_checksum(data.checksum) {
            Ok(())
        } else {
            Err(Error::IncorrectChecksum)
        }
    }

    /// The checksum text of the current book.
    pub fn checksum_input(&self) -> (r: String)
        requires
            self.wf(),
        ensures
            r@ == checksum_text(self@.bids, self@.asks),
    {
        checksum_text_of(&self.bids, &self.asks)
    }

    /// Whether the CRC32 of the book's checksum text equals `checksum`.
    pub fn verify_checksum(&self, checksum: u32) -> (r: bool)
        requires
            self.wf(),
        ensures
            r == (crc32_of(checksum_text(self@.bids, self@.asks)) == checksum),
    {
        let text = self.checksum_input();
        crc32(text.as_str()) == checksum
    }
}

impl Orderbook {
    /// The price of the best bid, the highest of all bids.
    pub fn bid_price(&self) -> (r: Option<Decimal>)
        requires
            self.wf(),
        ensures
            r == (if self@.bids.len() > 0 {
                Some(self@.bids[0].0)
            } else {
                None
            }),
            r matches Some(p) ==> forall|i: int| 0 <= i < self@.bids.len() ==> #[trigger] self@.bids[i].0.le(p),
    {
        proof {
            lemma_top_is_best(self@.bids, true);
        }
        if self.bids.len() > 0 {
            Some(self.bids[0].0)
        } else {
            None
        }
    }

    /// The price of the best ask, the lowest of all asks.
    pub fn ask_price(&self) -> (r: Option<Decimal>)
        requires
            self.wf(),
        ensures
            r == (if self@.asks.len() > 0 {
                Some(self@.asks[0].0)
            } else {
                None
            }),
            r matches Some(p) ==> forall|i: int| 0 <= i < self@.asks.len() ==> p.le(#[trigger] self@.asks[i].0),
    {
        proof {
            lemma_top_is_best(self@.asks, false);
        }
        if self.asks.len() > 0 {
            Some(self.asks[0].0)
        } else {
            None
        }
    }

    /// The midpoint `(bid_price + ask_price) / 2`, not rounded to the price
    /// increment; `None` where a side is empty or the arithmetic overflows.
    pub fn mid_price(&self) -> (r: Option<Decimal>)
        requires
            self.wf(),
        ensures
            r == (if self@.bids.len() > 0 && self@.asks.len() > 0 {
                match decimal_sum(self@.bids[0].0, self@.asks[0].0) {
                    Some(total) => decimal_quotient(total, Decimal { mantissa: 2, scale: 0 }),
                    None => None,
                }
            } else {
                None
            }),
    {
        if self.bids.len() == 0 || self.asks.len() == 0 {
            return None;
        }
        let two = Decimal::new(2, 0);
        match self.bids[0].0.checked_add(&self.asks[0].0) {
            Some(total) => total.checked_div(&two),
            None => None,
        }
    }

    /// The best bid as `(price, size)`.
    pub fn best_bid(&self) -> (r: Option<Level>)
        ensures
            r == (if self@.bids.len() > 0 {
                Some(self@.bids[0])
            } else {
                None
            }),
    {
        if self.bids.len() > 0 {
            Some(self.bids[0])
        } else {
            None
        }
    }

    /// The best ask as `(price, size)`.
    pub fn best_ask(&self) -> (r: Option<Level>)
        ensures
            r == (if self@.asks.len() > 0 {
                Some(self@.asks[0])
            } else {
                None
            }),
    {
        if self.asks.len() > 0 {
            Some(self.asks[0])
        } else {
            None
        }
    }

    /// The best bid and the best ask, where both sides hold a level.
    pub fn best_bid_and_ask(&self) -> (r: Option<(Level, Level)>)
        ensures
            r == (if self@.bids.len() > 0 && self@.asks.len() > 0 {
                Some((self@.bids[0], self@.asks[0]))
            } else {
                None
            }),
    {
        match (self.best_bid(), self.best_ask()) {
            (Some(b), Some(a)) => Some((b, a)),
            _ => None,
        }
    }

    /// The expected average price of a market order of `quantity` on `side`:
    /// a buy walks the asks, a sell the bids, from the top. `None` ("no
    /// quote") where the ladder holds less than `quantity`, and where the
    /// arithmetic fails (a zero quantity, or an overflow).
    pub fn quote(&self, side: Side, quantity: Decimal) -> (r: Option<Decimal>)
        requires
            self.wf(),
            quantity.wf(),
        ensures
            r == quote_spec(self@, side, quantity),
            ({
                let ladder = if side == Side::Buy {
                    self@.asks
                } else {
                    self@.bids
                };
                sizes_at_scale(ladder, quantity.scale) && size_mantissas(ladder) < quantity.mantissa
            }) ==> r is None,
    {
        let ladder = if side == Side::Buy {
            &self.asks
        } else {
            &self.bids
        };
        let f = match take_fills(ladder, quantity) {
            Some(f) => f,
            None => return None,
        };
        let zero = Decimal::zero();
        match weighted_total(&f, zero) {
            Some(total) => total.checked_div(&quantity),
            None => None,
        }
    }
}

proof fn lemma_top_is_best(l: Seq<Level>, descending: bool)
    requires
        ladder_wf(l, descending),
    ensures
        l.len() > 0 ==> forall|i: int|
            0 <= i < l.len() ==> if descending {
                (#[trigger] l[i]).0.le(l[0].0)
            } else {
                l[0].0.le(l[i].0)
            },
{
    if l.len() > 0 {
        assert forall|i: int| 0 <= i < l.len() implies if descending {
            (#[trigger] l[i]).0.le(l[0].0)
        } else {
            l[0].0.le(l[i].0)
        } by {
            lemma_trichotomy(l[i].0, l[0].0);
            if i > 0 {
                assert(before(l[0].0, l[i].0, descending));
            }
        }
    }
}

pub open spec fn prepend(done: Seq<Level>, rest: Option<Seq<Level>>) -> Option<Seq<Level>> {
    match rest {
        None => None,
        Some(f) => Some(done + f),
    }
}

/// The sum of the size mantissas of a ladder.
pub open spec fn size_mantissas(levels: Seq<Level>) -> int
    decreases levels.len(),
{
    if levels.len() == 0 {
        0
    } else {
        size_mantissas(levels.drop_last()) + levels.last().1.mantissa
    }
}

/// Every size is positive and written at `scale`.
pub open spec fn sizes_at_scale(levels: Seq<Level>, scale: u32) -> bool {
    forall|i: int| 0 <= i < levels.len() ==> (#[trigger] levels[i]).1.scale == scale && levels[i].1.mantissa > 0
}

proof fn lemma_prefix_sizes(levels: Seq<Level>, scale: u32, k: int)
    requires
        sizes_at_scale(levels, scale),
        0 <= k <= levels.len(),
    ensures
        size_mantissas(levels.take(k)) <= size_mantissas(levels),
        k < levels.len() ==> size_mantissas(levels.take(k + 1)) == size_mantissas(levels.take(k))
            + levels[k].1.mantissa,
    decreases levels.len() - k,
{
    if k < levels.len() {
        assert(levels.take(k + 1).drop_last() =~= levels.take(k));
        lemma_prefix_sizes(levels, scale, k + 1);
    } else {
        assert(levels.take(k) =~= levels);
    }
}

/// The fills of a market order of `quantity` against a best-first ladder.
fn take_fills(ladder: &Vec<Level>, quantity: Decimal) -> (r: Option<Vec<Level>>)
    requires
        levels_wf(ladder@),
        quantity.wf(),
    ensures
        r matches Some(f) ==> fills(ladder@, quantity) == Some(f@) && levels_wf(f@),
        r is None ==> fills(ladder@, quantity) is None,
        sizes_at_scale(ladder@, quantity.scale) && size_mantissas(ladder@) < quantity.mantissa ==> r is None,
{
    let ghost short = sizes_at_scale(ladder@, quantity.scale) && size_mantissas(ladder@) < quantity.mantissa;
    let mut done: Vec<Level> = Vec::new();
    let mut remaining = quantity;
    let mut k: usize = 0;
    proof {
        assert(ladder@.take(0) =~= Seq::<Level>::empty());
        assert(ladder@.skip(0) =~= ladder@);
        match fills(ladder@, quantity) {
            None => {},
            Some(f) => {
                assert(done@ + f =~= f);
            },
        }
    }
    loop
        invariant
            k <= ladder@.len(),
            levels_wf(ladder@),
            levels_wf(done@),
            remaining.wf(),
            fills(ladder@, quantity) == prepend(done@, fills(ladder@.skip(k as int), remaining)),
            short == (sizes_at_scale(ladder@, quantity.scale) && size_mantissas(ladder@) < quantity.mantissa),
            short ==> remaining.scale == quantity.scale && remaining.mantissa == quantity.mantissa
                - size_mantissas(ladder@.take(k as int)),
        decreases ladder@.len() - k,
    {
        let ghost rest = ladder@.skip(k as int);
        proof {
            if short {
                lemma_prefix_sizes(ladder@, quantity.scale, k as int);
            }
        }
        if !remaining.is_positive() {
            proof {
                assert(done@ + Seq::<Level>::empty() =~= done@);
            }
            return Some(done);
        }
        if k >= ladder.len() {
            return None;
        }
        let (price, size) = ladder[k];
        proof {
            assert(rest[0] == ladder@[k as int]);
            assert(rest.drop_first() =~= ladder@.skip(k + 1));
        }
        proof {
            if short {
                lemma_lt_same_scale(remaining, size);
                lemma_prefix_sizes(ladder@, quantity.scale, k + 1);
            }
        }
        if !remaining.less_than(&size) {
            match remaining.checked_sub(&size) {
                None => return None,
                Some(rest_quantity) => {
                    done.push((price, size));
                    remaining = rest_quantity;
                    k = k + 1;
                    proof {
                        let d0 = done@.drop_last();
                        match fills(ladder@.skip(k as int), remaining) {
                            None => {},
                            Some(f) => {
                                assert(d0 + (seq![(price, size)] + f) =~= done@ + f);
                            },
                        }
                    }
                },
            }
        } else {
            done.push((price, remaining));
            proof {
                let d0 = done@.drop_last();
                assert(d0 + seq![(price, remaining)] =~= done@);
            }
            return Some(done);
        }
    }
}

/// `acc` plus the sum of price times size over `levels`.
fn weighted_total(levels: &Vec<Level>, acc: Decimal) -> (r: Option<Decimal>)
    requires
        levels_wf(levels@),
        acc.wf(),
    ensures
        r == accumulate(levels@, acc),
        r matches Some(t) ==> t.wf(),
{
    let mut total = acc;
    let mut k: usize = 0;
    proof {
        assert(levels@.skip(0) =~= levels@);
    }
    while k < levels.len()
        invariant
            k <= levels@.len(),
            levels_wf(levels@),
            total.wf(),
            accumulate(levels@, acc) == accumulate(levels@.skip(k as int), total),
        decreases levels@.len() - k,
    {
        let ghost rest = levels@.skip(k as int);
        proof {
            assert(rest[0] == levels@[k as int]);
            assert(rest.drop_first() =~= levels@.skip(k + 1));
        }
        let (price, size) = levels[k];
        let m = match price.checked_mul(&size) {
            Some(m) => m,
            None => return None,
        };
        total = match total.checked_add(&m) {
            Some(t) => t,
            None => return None,
        };
        k = k + 1;
    }
    proof {
        assert(levels@.skip(k as int).len() == 0);
    }
    Some(total)
}

// ---------------------------------------------------------------------------
// Laws

/// Applying the same snapshot twice leaves the replica as applying it once.
pub proof fn lemma_partial_idempotent(book: BookView, bids: Seq<Level>, asks: Seq<Level>)
    ensures
        book_after(book_after(book, OrderbookAction::Partial, bids, asks), OrderbookAction::Partial, bids, asks)
            == book_after(book, OrderbookAction::Partial, bids, asks),
{
}

/// A level of size zero at a price that the ladder does not hold changes nothing.
pub proof fn lemma_zero_size_absent_noop(l: Seq<Level>, price: Decimal, size: Decimal, descending: bool)
    requires
        size.is_zero_spec(),
        forall|i: int| 0 <= i < l.len() ==> !(#[trigger] l[i]).0.same_value(price),
    ensures
        upsert(l, price, size, descending) == l,
    decreases l.len(),
{
    if l.len() > 0 {
        let rest = l.drop_first();
        assert forall|i: int| 0 <= i < rest.len() implies !(#[trigger] rest[i]).0.same_value(price) by {
            assert(rest[i] == l[i + 1]);
        }
        lemma_zero_size_absent_noop(rest, price, size, descending);
        assert(seq![l[0]] + rest =~= l);
    }
}

proof fn lemma_checksum_tokens_len(bids: Seq<Level>, asks: Seq<Level>, n: nat)
    ensures
        checksum_tokens(bids, asks, n).len() == 2 * (if n <= bids.len() {
            n as int
        } else {
            bids.len() as int
        }) + 2 * (if n <= asks.len() {
            n as int
        } else {
            asks.len() as int
        }),
    decreases n,
{
    if n > 0 {
        lemma_checksum_tokens_len(bids, asks, (n - 1) as nat);
    }
}

/// With at most 100 levels per side, the checksum covers exactly the levels
/// that are there: a price and a size token for each.
pub proof fn lemma_checksum_covers_populated(bids: Seq<Level>, asks: Seq<Level>)
    requires
        bids.len() <= CHECKSUM_DEPTH,
        asks.len() <= CHECKSUM_DEPTH,
    ensures
        checksum_tokens(bids, asks, checksum_depth(bids, asks)).len() == 2 * bids.len() + 2
            * asks.len(),
{
    lemma_checksum_tokens_len(bids, asks, checksum_depth(bids, asks));
}

/// The checksum text of a book with the bid `0.1 × 5` and the ask
/// `0.000075 × 2` is `0.1:5.0:7.5e-05:2.0`.
pub proof fn lemma_checksum_text_example()
    ensures
        checksum_text(
            seq![(Decimal { mantissa: 1, scale: 1 }, Decimal { mantissa: 5, scale: 0 })],
            seq![(Decimal { mantissa: 75, scale: 6 }, Decimal { mantissa: 2, scale: 0 })],
        ) == "0.1:5.0:7.5e-05:2.0"@,
{
    let bp = Decimal { mantissa: 1, scale: 1 };
    let bs = Decimal { mantissa: 5, scale: 0 };
    let ap = Decimal { mantissa: 75, scale: 6 };
    let as_ = Decimal { mantissa: 2, scale: 0 };
    reveal_with_fuel(crate::decimal::pow10, 7);
    reveal_with_fuel(crate::decimal::decimal_text, 3);
    reveal_with_fuel(crate::decimal::normalized, 2);
    assert(crate::decimal::decimal_text(1) =~= seq!['1']);
    assert(crate::decimal::decimal_text(5) =~= seq!['5']);
    assert(crate::decimal::decimal_text(2) =~= seq!['2']);
    assert(crate::decimal::decimal_text(7) =~= seq!['7']);
    assert(crate::decimal::decimal_text(75) =~= seq!['7', '5']);
    assert(normalized(bp) == bp);
    assert(normalized(ap) == ap);
    assert(token_text(bp) =~= seq!['0', '.', '1']);
    assert(token_text(bs) =~= seq!['5', '.', '0']);
    assert(token_text(as_) =~= seq!['2', '.', '0']);
    let e = exponent_text(ap);
    let ds = crate::decimal::digits(75);
    assert(ds =~= seq!['7', '5']);
    assert(ds.skip(1) =~= seq!['5']);
    assert(!(forall|i: int| 0 <= i < ds.skip(1).len() ==> ds.skip(1)[i] == '0')) by {
        assert(ds.skip(1)[0] != '0');
    }
    assert(ds.len() - 1 - ap.scale == -5);
    assert(crate::decimal::signed_text(-5) =~= seq!['-', '5']);
    assert(e =~= seq!['7', '.', '5', 'e', '-', '5']);
    assert(crate::decimal::pow10(6) == 1000000);
    assert(crate::decimal::pow10(4) == 10000);
    assert(!ap.is_integral_spec());
    assert(ap.lt(small_threshold()));
    reveal_with_fuel(pad_exponent, 6);
    assert(pad_exponent(e) =~= seq!['7', '.', '5', 'e', '-', '0', '5']);
    assert(token_text(ap) =~= seq!['7', '.', '5', 'e', '-', '0', '5']);
    let b = seq![(bp, bs)];
    let a = seq![(ap, as_)];
    let ts = checksum_tokens(b, a, 1);
    assert(checksum_depth(b, a) == 1);
    assert(checksum_tokens(b, a, 0) =~= Seq::<Seq<char>>::empty());
    assert(b[0] == (bp, bs) && a[0] == (ap, as_));
    assert(position_tokens(b, a, 0) =~= seq![token_text(bp), token_text(bs)] + seq![token_text(ap), token_text(as_)]);
    assert(ts =~= seq![token_text(bp), token_text(bs), token_text(ap), token_text(as_)]);
    reveal_with_fuel(join_tokens, 5);
    reveal_strlit("0.1:5.0:7.5e-05:2.0");
    assert(join_tokens(ts) =~= "0.1:5.0:7.5e-05:2.0"@);
}

} // verus!
