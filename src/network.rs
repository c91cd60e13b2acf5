use vstd::prelude::*;
use crate::error::FFINetworkingError;
use crate::headers::{Headers, lemma_lowercase_of_lowercase};

verus! {

/// A transport-neutral request, handed across the boundary to the foreign
/// runtime that performs it.
#[derive(Debug, PartialEq, Eq, Clone)]
pub struct FFINetworkingRequest {
    pub url: String,
    pub method: String,
    pub headers: Headers,
    pub body: Vec<u8>,
}

/// A transport-neutral response, as the foreign runtime received it.
#[derive(Debug, PartialEq, Eq, Clone)]
pub struct FFINetworkingResponse {
    pub status_code: u16,
    /// Can be empty.
    pub body: Vec<u8>,
}

/// What the foreign runtime reports, exactly once, for one request.
#[derive(Debug, PartialEq, Eq, Clone)]
pub enum FFINetworkingOutcome {
    Success { value: FFINetworkingResponse },
    Failure { error: FFINetworkingError },
}

/// The API keys of the providers that the gateway talks to.
#[derive(Debug, PartialEq, Eq, Clone)]
pub struct ClientKeys {
    pub binance: String,
    pub coin_watch: String,
    pub alpha: String,
}

/// A provider: the base URL of its API and the header fields that every
/// request to it carries.
pub trait ExternalClient {
    spec fn base_url_spec(&self) -> Seq<char>;

    spec fn headers_spec(&self) -> Map<Seq<char>, Seq<char>>;

    fn get_base_url(&self) -> (r: String)
        ensures
            r@ == self.base_url_spec(),
    ;

    fn get_headers(&self) -> (r: Headers)
        ensures
            r.wf(),
            r@ == self.headers_spec(),
    ;
}

/// The base URL of the Live Coin Watch API.
pub open spec fn coin_watch_base_url() -> Seq<char> {
    "https://api.livecoinwatch.com"@
}

/// The header fields of a request to Live Coin Watch made with `key`.
pub open spec fn coin_watch_headers(key: Seq<char>) -> Map<Seq<char>, Seq<char>> {
    Map::empty().insert("x-api-key"@, key).insert("content-type"@, "application/json"@)
}

/// The Live Coin Watch provider, for one API key.
#[derive(Debug, PartialEq, Eq, Clone)]
pub struct CoinWatchExternalClient {
    pub headers: Headers,
    pub base_url: String,
}

impl CoinWatchExternalClient {
    /// The Live Coin Watch provider that authenticates with `key`.
    pub fn new(key: String) -> (r: Self)
        ensures
            r.headers.wf(),
            r.headers@ == coin_watch_headers(key@),
            r.base_url@ == coin_watch_base_url(),
    {
        let mut headers = Headers::new();
        proof {
            reveal_strlit("x-api-key");
            reveal_strlit("content-type");
            lemma_lowercase_of_lowercase("x-api-key"@);
            lemma_lowercase_of_lowercase("content-type"@);
        }
        headers.insert("x-api-key", key);
        headers.insert("content-type", String::from_str("application/json"));
        CoinWatchExternalClient { headers, base_url: String::from_str("https://api.livecoinwatch.com") }
    }
}

impl Default for CoinWatchExternalClient {
    fn default() -> (r: Self)
        ensures
            r.headers.wf(),
            r.headers@ == coin_watch_headers("Default Key"@),
            r.base_url@ == coin_watch_base_url(),
    {
        Self::new(String::from_str("Default Key"))
    }
}

impl ExternalClient for CoinWatchExternalClient {
    open spec fn base_url_spec(&self) -> Seq<char> {
        self.base_url@
    }

    open spec fn headers_spec(&self) -> Map<Seq<char>, Seq<char>> {
        self.headers@
    }

    fn get_base_url(&self) -> (r: String) {
        self.base_url.clone()
    }

    fn get_headers(&self) -> (r: Headers) {
        self.headers.clone()
    }
}

} // verus!

verus! {

/// The failure of a data task on the foreign side.
#[derive(Debug, PartialEq, Eq, Clone, Copy)]
pub enum DataTaskFailure {
    Error,
}

/// Data handed back by the foreign side.
#[derive(Debug, PartialEq, Eq, Clone, Copy)]
pub struct Data {}

/// A URL request as the foreign side sees it.
#[derive(Debug, PartialEq, Eq, Clone, Copy)]
pub struct URLRequest {}

} // verus!
