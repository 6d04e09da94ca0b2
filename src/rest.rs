//! The signed REST request layer: what a request carries on the wire, how it
//! is signed, and how the response envelope is read. The HTTP exchange itself
//! is made by the caller with the values prepared here.

use crate::decimal::{Decimal, decimal_text, digit_char};
use crate::model::OrderType;
use crate::options::{Endpoint, Options, prefix, rest_url};
use vstd::prelude::*;

verus! {

/// Errors of the REST layer.
#[derive(Debug)]
pub enum Error {
    /// The exchange answered `success: false` with this message.
    Api(String),
    PlacingLimitOrderRequiresPrice,
    /// An authenticated request was attempted without a secret.
    NoSecretConfigured,
    /// The HTTP exchange failed; the text describes how.
    Transport(String),
    /// A request or response could not be encoded or decoded.
    Codec(String),
}

#[derive(Clone, Copy, Debug, PartialEq, Eq, Structural)]
pub enum Method {
    Get,
    Post,
    Delete,
}

pub open spec fn method_text(m: Method) -> Seq<char> {
    match m {
        Method::Get => "GET"@,
        Method::Post => "POST"@,
        Method::Delete => "DELETE"@,
    }
}

impl Method {
    /// The method's name as it appears on the wire and in the signature.
    pub fn as_str(&self) -> (r: &'static str)
        ensures
            r@ == method_text(*self),
    {
        match self {
            Method::Get => "GET",
            Method::Post => "POST",
            Method::Delete => "DELETE",
        }
    }
}

// ---------------------------------------------------------------------------
// Signing

pub open spec fn hex_digit(n: int) -> char {
    seq!['0', '1', '2', '3', '4', '5', '6', '7', '8', '9', 'a', 'b', 'c', 'd', 'e', 'f'][n]
}

/// Lowercase hexadecimal text: two digits per byte, high nibble first.
pub open spec fn hex_text(b: Seq<u8>) -> Seq<char>
    decreases b.len(),
{
    if b.len() == 0 {
        Seq::<char>::empty()
    } else {
        hex_text(b.drop_last()) + seq![hex_digit(b.last() as int / 16), hex_digit(b.last() as int % 16)]
    }
}

/// Relies on `hex::encode`: each byte becomes two lowercase hex digits, in order.
#[verifier::external_body]
fn hex_encode(bytes: &Vec<u8>) -> (r: String)
    ensures
        r@ == hex_text(bytes@),
{
    hex::encode(bytes)
}

/// The HMAC-SHA256 that `hmac_sha256` computes of a message's UTF-8 bytes
/// under a key's UTF-8 bytes.
pub uninterp spec fn hmac_sha256_of(key: Seq<char>, message: Seq<char>) -> Seq<u8>;

/// Relies on `hmac_sha256::HMAC::mac`, which returns the 32-byte HMAC-SHA256
/// of `input` keyed by `k`.
#[verifier::external_body]
fn hmac_sha256(message: &str, key: &str) -> (r: Vec<u8>)
    ensures
        r@ == hmac_sha256_of(key@, message@),
        r@.len() == 32,
{
    hmac_sha256::HMAC::mac(message.as_bytes(), key.as_bytes()).to_vec()
}

/// The signature of a payload: its HMAC-SHA256 under the secret, in hex.
pub open spec fn signature(secret: Seq<char>, payload: Seq<char>) -> Seq<char> {
    hex_text(hmac_sha256_of(secret, payload))
}

proof fn lemma_hex_len(b: Seq<u8>)
    ensures
        hex_text(b).len() == 2 * b.len(),
    decreases b.len(),
{
    if b.len() > 0 {
        lemma_hex_len(b.drop_last());
    }
}

/// Signs a payload with a secret: 64 lowercase hex digits.
pub fn sign(secret: &str, payload: &str) -> (r: String)
    ensures
        r@ == signature(secret@, payload@),
        r@.len() == 64,
{
    let mac = hmac_sha256(payload, secret);
    proof {
        lemma_hex_len(mac@);
    }
    hex_encode(&mac)
}

fn digit_str(d: u64) -> (r: &'static str)
    requires
        d < 10,
    ensures
        r@ == seq![digit_char(d as int)],
{
    proof {
        reveal_strlit("0");
        reveal_strlit("1");
        reveal_strlit("2");
        reveal_strlit("3");
        reveal_strlit("4");
        reveal_strlit("5");
        reveal_strlit("6");
        reveal_strlit("7");
        reveal_strlit("8");
        reveal_strlit("9");
    }
    let r = match d {
        0 => "0",
        1 => "1",
        2 => "2",
        3 => "3",
        4 => "4",
        5 => "5",
        6 => "6",
        7 => "7",
        8 => "8",
        _ => "9",
    };
    assert(r@ =~= seq![digit_char(d as int)]);
    r
}

/// The decimal text of `n`.
pub fn decimal_string(n: u64) -> (r: String)
    ensures
        r@ == decimal_text(n as nat),
    decreases n,
{
    if n < 10 {
        String::from_str(digit_str(n))
    } else {
        let mut r = decimal_string(n / 10);
        r.append(digit_str(n % 10));
        r
    }
}

/// The payload that signs a WebSocket login at `timestamp` milliseconds.
pub open spec fn login_payload(timestamp: nat) -> Seq<char> {
    decimal_text(timestamp) + "websocket_login"@
}

/// The signature of a WebSocket login at `timestamp` milliseconds.
pub fn login_signature(secret: &str, timestamp: u64) -> (r: String)
    ensures
        r@ == signature(secret@, login_payload(timestamp as nat)),
{
    let mut payload = decimal_string(timestamp);
    payload.append("websocket_login");
    sign(secret, payload.as_str())
}

// ---------------------------------------------------------------------------
// URL encoding

/// ASCII letters, digits and `-`, `.`, `_`, `~`: the bytes that URL encoding
/// keeps as they are.
pub open spec fn unreserved(b: u8) -> bool {
    (65 <= b <= 90) || (97 <= b <= 122) || (48 <= b <= 57) || b == 45 || b == 46 || b == 95 || b == 126
}

pub open spec fn upper_hex_digit(n: int) -> char {
    seq!['0', '1', '2', '3', '4', '5', '6', '7', '8', '9', 'A', 'B', 'C', 'D', 'E', 'F'][n]
}

/// One byte, URL-encoded: itself if unreserved, else `%` and two uppercase
/// hex digits.
pub open spec fn encoded_byte(b: u8) -> Seq<char> {
    if unreserved(b) {
        seq![b as char]
    } else {
        seq!['%', upper_hex_digit(b as int / 16), upper_hex_digit(b as int % 16)]
    }
}

/// Bytes, URL-encoded one by one.
pub open spec fn url_encoded(bytes: Seq<u8>) -> Seq<char>
    decreases bytes.len(),
{
    if bytes.len() == 0 {
        Seq::<char>::empty()
    } else {
        url_encoded(bytes.drop_last()) + encoded_byte(bytes.last())
    }
}

/// The URL encoding of a text's UTF-8 bytes.
pub open spec fn url_encoded_text(s: Seq<char>) -> Seq<char> {
    url_encoded(vstd::utf8::encode_utf8(s))
}

fn unreserved_text(b: u8) -> (r: &'static str)
    requires
        unreserved(b),
    ensures
        r@ == seq![b as char],
{
    proof {
        reveal_strlit("A");
        reveal_strlit("B");
        reveal_strlit("C");
        reveal_strlit("D");
        reveal_strlit("E");
        reveal_strlit("F");
        reveal_strlit("G");
        reveal_strlit("H");
        reveal_strlit("I");
        reveal_strlit("J");
        reveal_strlit("K");
        reveal_strlit("L");
        reveal_strlit("M");
        reveal_strlit("N");
        reveal_strlit("O");
        reveal_strlit("P");
        reveal_strlit("Q");
        reveal_strlit("R");
        reveal_strlit("S");
        reveal_strlit("T");
        reveal_strlit("U");
        reveal_strlit("V");
        reveal_strlit("W");
        reveal_strlit("X");
        reveal_strlit("Y");
        reveal_strlit("Z");
        reveal_strlit("a");
        reveal_strlit("b");
        reveal_strlit("c");
        reveal_strlit("d");
        reveal_strlit("e");
        reveal_strlit("f");
        reveal_strlit("g");
        reveal_strlit("h");
        reveal_strlit("i");
        reveal_strlit("j");
        reveal_strlit("k");
        reveal_strlit("l");
        reveal_strlit("m");
        reveal_strlit("n");
        reveal_strlit("o");
        reveal_strlit("p");
        reveal_strlit("q");
        reveal_strlit("r");
        reveal_strlit("s");
        reveal_strlit("t");
        reveal_strlit("u");
        reveal_strlit("v");
        reveal_strlit("w");
        reveal_strlit("x");
        reveal_strlit("y");
        reveal_strlit("z");
        reveal_strlit("0");
        reveal_strlit("1");
        reveal_strlit("2");
        reveal_strlit("3");
        reveal_strlit("4");
        reveal_strlit("5");
        reveal_strlit("6");
        reveal_strlit("7");
        reveal_strlit("8");
        reveal_strlit("9");
        reveal_strlit("-");
        reveal_strlit(".");
        reveal_strlit("_");
        reveal_strlit("~");
    }
    let r = match b {
        65 => "A",
        66 => "B",
        67 => "C",
        68 => "D",
        69 => "E",
        70 => "F",
        71 => "G",
        72 => "H",
        73 => "I",
        74 => "J",
        75 => "K",
        76 => "L",
        77 => "M",
        78 => "N",
        79 => "O",
        80 => "P",
        81 => "Q",
        82 => "R",
        83 => "S",
        84 => "T",
        85 => "U",
        86 => "V",
        87 => "W",
        88 => "X",
        89 => "Y",
        90 => "Z",
        97 => "a",
        98 => "b",
        99 => "c",
        100 => "d",
        101 => "e",
        102 => "f",
        103 => "g",
        104 => "h",
        105 => "i",
        106 => "j",
        107 => "k",
        108 => "l",
        109 => "m",
        110 => "n",
        111 => "o",
        112 => "p",
        113 => "q",
        114 => "r",
        115 => "s",
        116 => "t",
        117 => "u",
        118 => "v",
        119 => "w",
        120 => "x",
        121 => "y",
        122 => "z",
        48 => "0",
        49 => "1",
        50 => "2",
        51 => "3",
        52 => "4",
        53 => "5",
        54 => "6",
        55 => "7",
        56 => "8",
        57 => "9",
        45 => "-",
        46 => ".",
        95 => "_",
        _ => "~",
    };
    assert(r@ =~= seq![b as char]);
    r
}

fn upper_hex_text(n: u8) -> (r: &'static str)
    requires
        n < 16,
    ensures
        r@ == seq![upper_hex_digit(n as int)],
{
    proof {
        reveal_strlit("0");
        reveal_strlit("1");
        reveal_strlit("2");
        reveal_strlit("3");
        reveal_strlit("4");
        reveal_strlit("5");
        reveal_strlit("6");
        reveal_strlit("7");
        reveal_strlit("8");
        reveal_strlit("9");
        reveal_strlit("A");
        reveal_strlit("B");
        reveal_strlit("C");
        reveal_strlit("D");
        reveal_strlit("E");
        reveal_strlit("F");
    }
    let r = match n {
        0 => "0",
        1 => "1",
        2 => "2",
        3 => "3",
        4 => "4",
        5 => "5",
        6 => "6",
        7 => "7",
        8 => "8",
        9 => "9",
        10 => "A",
        11 => "B",
        12 => "C",
        13 => "D",
        14 => "E",
        _ => "F",
    };
    assert(r@ =~= seq![upper_hex_digit(n as int)]);
    r
}

/// URL-encodes a text: unreserved ASCII bytes stay, every other byte of its
/// UTF-8 form becomes `%` and two hex digits.
pub fn url_encode(s: &str) -> (r: String)
    ensures
        r@ == url_encoded_text(s@),
{
    let bytes = s.as_bytes_vec();
    let mut r = String::new();
    let mut i: usize = 0;
    proof {
        assert(bytes@.take(0) =~= Seq::<u8>::empty());
    }
    while i < bytes.len()
        invariant
            i <= bytes@.len(),
            bytes@ == vstd::utf8::encode_utf8(s@),
            r@ == url_encoded(bytes@.take(i as int)),
        decreases bytes@.len() - i,
    {
        let b = bytes[i];
        let ghost before = r@;
        proof {
            reveal_strlit("%");
            assert(bytes@.take(i + 1).drop_last() =~= bytes@.take(i as int));
            assert(bytes@.take(i + 1).last() == b);
        }
        if (65 <= b && b <= 90) || (97 <= b && b <= 122) || (48 <= b && b <= 57) || b == 45 || b == 46
            || b == 95 || b == 126 {
            r.append(unreserved_text(b));
        } else {
            r.append("%");
            r.append(upper_hex_text(b / 16));
            r.append(upper_hex_text(b % 16));
            proof {
                assert(seq!['%'] + seq![upper_hex_digit(b as int / 16)] + seq![upper_hex_digit(b as int % 16)]
                    =~= encoded_byte(b));
            }
        }
        proof {
            assert(r@ =~= before + encoded_byte(b));
        }
        i = i + 1;
    }
    proof {
        assert(bytes@.take(bytes@.len() as int) =~= bytes@);
    }
    r
}

// ---------------------------------------------------------------------------
// Requests

/// The path as sent and as signed: the query follows a `?` for a GET with a
/// non-empty query, and is left out otherwise.
pub open spec fn wire_path(method: Method, path: Seq<char>, query: Seq<char>) -> Seq<char> {
    if method == Method::Get && query.len() > 0 {
        path + seq!['?'] + query
    } else {
        path
    }
}

/// What is signed: timestamp, method, `/api` and the wire path, and the body
/// for a method other than GET.
pub open spec fn sign_payload(timestamp: nat, method: Method, wire: Seq<char>, body: Seq<char>) -> Seq<char> {
    decimal_text(timestamp) + method_text(method) + "/api"@ + wire + (if method == Method::Get {
        Seq::<char>::empty()
    } else {
        body
    })
}

/// The headers of one request, in order, as `(name, value)` texts.
pub open spec fn request_headers(
    e: Endpoint,
    timestamp: nat,
    sig: Option<Seq<char>>,
    subaccount: Option<Seq<char>>,
) -> Seq<(Seq<char>, Seq<char>)> {
    seq![("Content-Type"@, "application/json"@), (prefix(e) + "-TS"@, decimal_text(timestamp))] + (
    match sig {
        Some(s) => seq![(prefix(e) + "-SIGN"@, s)],
        None => Seq::empty(),
    }) + (match subaccount {
        Some(s) => seq![(prefix(e) + "-SUBACCOUNT"@, url_encoded_text(s))],
        None => Seq::empty(),
    })
}

pub open spec fn header_views(h: Seq<(String, String)>) -> Seq<(Seq<char>, Seq<char>)> {
    h.map_values(|p: (String, String)| (p.0@, p.1@))
}

/// A request ready for the wire.
#[derive(Debug)]
pub struct PreparedRequest {
    pub method: Method,
    pub url: String,
    /// The path with its query: byte for byte what the URL ends with and what is signed.
    pub path: String,
    pub body: Option<String>,
    pub headers: Vec<(String, String)>,
}

/// The configuration of REST requests: endpoint and credentials, fixed for
/// the life of a client.
#[derive(Clone, Debug)]
pub struct Dispatcher {
    pub endpoint: Endpoint,
    pub key: Option<String>,
    pub secret: Option<String>,
    pub subaccount: Option<String>,
}

pub open spec fn opt_view(o: Option<String>) -> Option<Seq<char>> {
    match o {
        Some(s) => Some(s@),
        None => None,
    }
}

fn push_header(headers: &mut Vec<(String, String)>, name: String, value: String)
    ensures
        header_views(final(headers)@) == header_views(old(headers)@).push((name@, value@)),
{
    let ghost before = headers@;
    headers.push((name, value));
    proof {
        assert(header_views(headers@) =~= header_views(before).push((name@, value@)));
    }
}

impl Dispatcher {
    pub fn new(options: Options) -> (r: Dispatcher)
        ensures
            r.endpoint == options.endpoint,
            r.key == options.key,
            r.secret == options.secret,
            r.subaccount == options.subaccount,
    {
        Dispatcher {
            endpoint: options.endpoint,
            key: options.key,
            secret: options.secret,
            subaccount: options.subaccount,
        }
    }

    /// The headers every request of the client carries: the API key and the
    /// subaccount, where configured.
    pub fn default_headers(&self) -> (r: Vec<(String, String)>)
        ensures
            header_views(r@) == (match opt_view(self.key) {
                Some(k) => seq![(prefix(self.endpoint) + "-KEY"@, k)],
                None => Seq::empty(),
            }) + (match opt_view(self.subaccount) {
                Some(s) => seq![(prefix(self.endpoint) + "-SUBACCOUNT"@, url_encoded_text(s))],
                None => Seq::empty(),
            }),
    {
        let mut headers: Vec<(String, String)> = Vec::new();
        proof {
            assert(header_views(headers@) =~= Seq::empty());
        }
        match &self.key {
            Some(k) => push_header(&mut headers, self.endpoint.key_header(), k.clone()),
            None => {},
        }
        let ghost mid = header_views(headers@);
        match &self.subaccount {
            Some(s) => push_header(&mut headers, self.endpoint.subaccount_header(), url_encode(s.as_str())),
            None => {},
        }
        proof {
            assert(header_views(headers@) =~= mid + (match opt_view(self.subaccount) {
                Some(s) => seq![(prefix(self.endpoint) + "-SUBACCOUNT"@, url_encoded_text(s))],
                None => Seq::empty(),
            }));
            assert(mid =~= (match opt_view(self.key) {
                Some(k) => seq![(prefix(self.endpoint) + "-KEY"@, k)],
                None => Seq::<(Seq<char>, Seq<char>)>::empty(),
            }));
        }
        headers
    }

    /// Prepares a request made at `timestamp` milliseconds: `query` is the
    /// encoded query of a GET (empty if none), `body` the encoded body of
    /// another method. An authenticated request without a secret fails with
    /// `NoSecretConfigured`; every other request is prepared, signed where it
    /// is authenticated.
    pub fn prepare(
        &self,
        method: Method,
        auth: bool,
        path: &str,
        query: &str,
        body: &str,
        timestamp: u64,
    ) -> (r: Result<PreparedRequest, Error>)
        ensures
            r is Err <==> auth && self.secret is None,
            r is Err ==> r matches Err(Error::NoSecretConfigured),
            r matches Ok(p) ==> {
                &&& p.method == method
                &&& p.path@ == wire_path(method, path@, query@)
                &&& p.url@ == rest_url(self.endpoint) + p.path@
                &&& opt_view(p.body) == (if method == Method::Get {
                    None
                } else {
                    Some(body@)
                })
                &&& header_views(p.headers@) == request_headers(
                    self.endpoint,
                    timestamp as nat,
                    if auth {
                        Some(
                            signature(
                                self.secret->Some_0@,
                                sign_payload(timestamp as nat, method, p.path@, body@),
                            ),
                        )
                    } else {
                        None
                    },
                    opt_view(self.subaccount),
                )
            },
    {
        if auth && self.secret.is_none() {
            return Err(Error::NoSecretConfigured);
        }
        let mut wire = String::from_str(path);
        if method == Method::Get && query.unicode_len() > 0 {
            wire.append("?");
            wire.append(query);
            proof {
                reveal_strlit("?");
            }
        }
        let mut url = String::from_str(self.endpoint.rest());
        url.append(wire.as_str());
        let ts = decimal_string(timestamp);
        let mut headers: Vec<(String, String)> = Vec::new();
        proof {
            assert(header_views(headers@) =~= Seq::empty());
        }
        push_header(&mut headers, String::from_str("Content-Type"), String::from_str("application/json"));
        push_header(&mut headers, self.endpoint.timestamp_header(), ts.clone());
        let ghost base = header_views(headers@);
        let ghost sig: Option<Seq<char>> = None;
        if auth {
            let secret = match &self.secret {
                Some(s) => s,
                None => return Err(Error::NoSecretConfigured),
            };
            let mut payload = ts.clone();
            payload.append(method.as_str());
            payload.append("/api");
            payload.append(wire.as_str());
            if method != Method::Get {
                payload.append(body);
            }
            proof {
                assert(payload@ =~= sign_payload(timestamp as nat, method, wire@, body@));
            }
            let s = sign(secret.as_str(), payload.as_str());
            proof {
                sig = Some(s@);
            }
            push_header(&mut headers, self.endpoint.sign_header(), s);
        }
        let ghost signed = header_views(headers@);
        match &self.subaccount {
            Some(s) => push_header(&mut headers, self.endpoint.subaccount_header(), url_encode(s.as_str())),
            None => {},
        }
        proof {
            let sub_part = match opt_view(self.subaccount) {
                Some(s) => seq![(prefix(self.endpoint) + "-SUBACCOUNT"@, url_encoded_text(s))],
                None => Seq::<(Seq<char>, Seq<char>)>::empty(),
            };
            let sig_part = match sig {
                Some(s) => seq![(prefix(self.endpoint) + "-SIGN"@, s)],
                None => Seq::<(Seq<char>, Seq<char>)>::empty(),
            };
            assert(header_views(headers@) =~= signed + sub_part);
            assert(signed =~= base + sig_part);
            assert(base =~= seq![("Content-Type"@, "application/json"@), (prefix(self.endpoint) + "-TS"@, decimal_text(timestamp as nat))]);
        }
        let body_out = if method == Method::Get {
            None
        } else {
            Some(String::from_str(body))
        };
        Ok(PreparedRequest { method, url, path: wire, body: body_out, headers })
    }
}

// ---------------------------------------------------------------------------
// Envelope

/// The envelope of a successful response.
#[derive(Clone, Debug)]
pub struct SuccessResponse<T> {
    pub success: bool,
    pub result: T,
}

/// The envelope of a failed response.
#[derive(Clone, Debug)]
pub struct ErrorResponse {
    pub success: bool,
    pub error: String,
}

/// Reads a response from its two decodings: as a success envelope, and as an
/// error envelope. A success yields its result; otherwise an error envelope
/// yields the exchange's message; otherwise the decoding error surfaces.
pub fn interpret_envelope<T>(
    as_success: Result<SuccessResponse<T>, String>,
    as_error: Result<ErrorResponse, String>,
) -> (r: Result<T, Error>)
    ensures
        match as_success {
            Ok(s) => r == Ok::<T, Error>(s.result),
            Err(_) => match as_error {
                Ok(e) => r == Err::<T, Error>(Error::Api(e.error)),
                Err(m) => r == Err::<T, Error>(Error::Codec(m)),
            },
        },
{
    match as_success {
        Ok(s) => Ok(s.result),
        Err(_) => match as_error {
            Ok(e) => Err(Error::Api(e.error)),
            Err(m) => Err(Error::Codec(m)),
        },
    }
}

/// A limit order must carry a price; this is checked before any request.
pub fn check_order_price(order_type: OrderType, price: &Option<Decimal>) -> (r: Result<(), Error>)
    ensures
        r is Err <==> (order_type == OrderType::Limit && price is None),
        r is Err ==> r matches Err(Error::PlacingLimitOrderRequiresPrice),
{
    if order_type == OrderType::Limit && price.is_none() {
        Err(Error::PlacingLimitOrderRequiresPrice)
    } else {
        Ok(())
    }
}

// ---------------------------------------------------------------------------
// Laws

/// A request carries the signature header exactly when it is authenticated.
pub proof fn lemma_sign_header_iff_auth(
    e: Endpoint,
    timestamp: nat,
    sig: Option<Seq<char>>,
    subaccount: Option<Seq<char>>,
)
    ensures
        (exists|i: int|
            0 <= i < request_headers(e, timestamp, sig, subaccount).len()
                && (#[trigger] request_headers(e, timestamp, sig, subaccount)[i]).0 == prefix(e)
                + "-SIGN"@) <==> sig is Some,
{
    reveal_strlit("Content-Type");
    reveal_strlit("-TS");
    reveal_strlit("-SIGN");
    reveal_strlit("-SUBACCOUNT");
    reveal_strlit("FTX");
    reveal_strlit("FTXUS");
    let h = request_headers(e, timestamp, sig, subaccount);
    let name = prefix(e) + "-SIGN"@;
    if sig is Some {
        assert(h[2].0 == name);
    } else {
        assert forall|i: int| 0 <= i < h.len() implies (#[trigger] h[i]).0 != name by {
            assert(h[i].0.len() != name.len());
        }
    }
}

/// A GET with an empty query is sent and signed on its bare path: no `?`.
pub proof fn lemma_empty_query_no_suffix(method: Method, path: Seq<char>, query: Seq<char>)
    requires
        query.len() == 0,
    ensures
        wire_path(method, path, query) == path,
{
}

/// The fields of a query that are present, in order: absent fields are left
/// out, as the exchange asks.
pub open spec fn present_fields_spec(fields: Seq<(String, Option<String>)>) -> Seq<(String, String)>
    decreases fields.len(),
{
    if fields.len() == 0 {
        Seq::empty()
    } else {
        match fields.last().1 {
            Some(v) => present_fields_spec(fields.drop_last()).push((fields.last().0, v)),
            None => present_fields_spec(fields.drop_last()),
        }
    }
}

/// The fields of a query that are present, in order.
pub fn present_fields(fields: &Vec<(String, Option<String>)>) -> (r: Vec<(String, String)>)
    ensures
        r@ == present_fields_spec(fields@),
{
    let mut r: Vec<(String, String)> = Vec::new();
    let mut i: usize = 0;
    while i < fields.len()
        invariant
            i <= fields@.len(),
            r@ == present_fields_spec(fields@.take(i as int)),
        decreases fields@.len() - i,
    {
        proof {
            assert(fields@.take(i + 1).drop_last() =~= fields@.take(i as int));
        }
        match &fields[i].1 {
            Some(v) => r.push((fields[i].0.clone(), v.clone())),
            None => {},
        }
        i = i + 1;
    }
    proof {
        assert(fields@.take(fields@.len() as int) =~= fields@);
    }
    r
}

} // verus!
