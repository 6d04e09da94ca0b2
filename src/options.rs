//! Client configuration: which exchange endpoint, and the credentials.

use vstd::prelude::*;

verus! {

/// The exchange an instance talks to.
#[derive(Clone, Copy, Debug, PartialEq, Eq, Structural)]
pub enum Endpoint {
    Com,
    Us,
}

pub open spec fn ws_url(e: Endpoint) -> Seq<char> {
    match e {
        Endpoint::Com => "wss://ftx.com/ws"@,
        Endpoint::Us => "wss://ftx.us/ws"@,
    }
}

pub open spec fn rest_url(e: Endpoint) -> Seq<char> {
    match e {
        Endpoint::Com => "https://ftx.com/api"@,
        Endpoint::Us => "https://ftx.us/api"@,
    }
}

pub open spec fn prefix(e: Endpoint) -> Seq<char> {
    match e {
        Endpoint::Com => "FTX"@,
        Endpoint::Us => "FTXUS"@,
    }
}

impl Endpoint {
    /// The WebSocket URL.
    pub fn ws(&self) -> (r: &'static str)
        ensures
            r@ == ws_url(*self),
    {
        match self {
            Endpoint::Com => "wss://ftx.com/ws",
            Endpoint::Us => "wss://ftx.us/ws",
        }
    }

    /// The base URL of the REST API.
    pub fn rest(&self) -> (r: &'static str)
        ensures
            r@ == rest_url(*self),
    {
        match self {
            Endpoint::Com => "https://ftx.com/api",
            Endpoint::Us => "https://ftx.us/api",
        }
    }

    /// The base URL of the REST API for accounts with optimized access.
    pub fn optimized_access_rest(&self) -> (r: &'static str)
        ensures
            r@ == (match *self {
                Endpoint::Com => "https://api.ftx.com/api"@,
                Endpoint::Us => "https://ftx.us/api"@,
            }),
    {
        match self {
            Endpoint::Com => "https://api.ftx.com/api",
            Endpoint::Us => "https://ftx.us/api",
        }
    }

    /// The prefix of the authentication header names.
    pub fn header_prefix(&self) -> (r: &'static str)
        ensures
            r@ == prefix(*self),
    {
        match self {
            Endpoint::Com => "FTX",
            Endpoint::Us => "FTXUS",
        }
    }

    /// The name of the timestamp header: the prefix and `-TS`.
    pub fn timestamp_header(&self) -> (r: String)
        ensures
            r@ == prefix(*self) + "-TS"@,
    {
        header_name(self.header_prefix(), "-TS")
    }

    /// The name of the signature header: the prefix and `-SIGN`.
    pub fn sign_header(&self) -> (r: String)
        ensures
            r@ == prefix(*self) + "-SIGN"@,
    {
        header_name(self.header_prefix(), "-SIGN")
    }

    /// The name of the subaccount header: the prefix and `-SUBACCOUNT`.
    pub fn subaccount_header(&self) -> (r: String)
        ensures
            r@ == prefix(*self) + "-SUBACCOUNT"@,
    {
        header_name(self.header_prefix(), "-SUBACCOUNT")
    }

    /// The name of the API key header: the prefix and `-KEY`.
    pub fn key_header(&self) -> (r: String)
        ensures
            r@ == prefix(*self) + "-KEY"@,
    {
        header_name(self.header_prefix(), "-KEY")
    }
}

fn header_name(prefix: &str, suffix: &str) -> (r: String)
    ensures
        r@ == prefix@ + suffix@,
{
    let mut r = String::from_str(prefix);
    r.append(suffix);
    r
}

impl Default for Endpoint {
    fn default() -> (r: Endpoint)
        ensures
            r == Endpoint::Com,
    {
        Endpoint::Com
    }
}

/// The endpoint and the credentials of a client. Without a secret no
/// authenticated request can be made.
#[derive(Clone, Debug)]
pub struct Options {
    pub endpoint: Endpoint,
    pub key: Option<String>,
    pub secret: Option<String>,
    pub subaccount: Option<String>,
}

impl Default for Options {
    fn default() -> (r: Options)
        ensures
            r.endpoint == Endpoint::Com,
            r.key is None,
            r.secret is None,
            r.subaccount is None,
    {
        Options { endpoint: Endpoint::Com, key: None, secret: None, subaccount: None }
    }
}

impl Options {
    /// Anonymous options for the US endpoint.
    pub fn us() -> (r: Options)
        ensures
            r.endpoint == Endpoint::Us,
            r.key is None,
            r.secret is None,
            r.subaccount is None,
    {
        Options { endpoint: Endpoint::Us, key: None, secret: None, subaccount: None }
    }

    /// The same options with an API key and secret.
    pub fn authenticate(self, key: String, secret: String) -> (r: Options)
        ensures
            r == (Options { key: Some(key), secret: Some(secret), ..self }),
    {
        Options { key: Some(key), secret: Some(secret), ..self }
    }

    /// The same options acting on a subaccount.
    pub fn subaccount(self, subaccount: String) -> (r: Options)
        ensures
            r == (Options { subaccount: Some(subaccount), ..self }),
    {
        Options { subaccount: Some(subaccount), ..self }
    }

    /// The same options with the subaccount given, or none.
    pub fn subaccount_optional(self, subaccount: Option<String>) -> (r: Options)
        ensures
            r == (Options { subaccount, ..self }),
    {
        Options { subaccount, ..self }
    }
}

} // verus!
