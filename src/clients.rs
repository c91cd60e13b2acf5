use vstd::prelude::*;
use crate::headers::{Headers, ascii_lowercase};
use crate::network::ExternalClient;

verus! {

/// The base URL of the Binance API.
pub open spec fn binance_base_url() -> Seq<char> {
    "https://api.binance.com/api/v3/"@
}

/// The header fields of a request to Binance made with `key`.
pub open spec fn binance_headers(key: Seq<char>) -> Map<Seq<char>, Seq<char>> {
    Map::empty().insert("x-mbx-apikey"@, key).insert(
        "content-type"@,
        "application/x-www-form-urlencoded"@,
    )
}

/// The Binance provider, for one API key.
#[derive(Debug, PartialEq, Eq, Clone)]
pub struct BinanceClient {
    pub headers: Headers,
    pub base_url: String,
}

impl BinanceClient {
    /// The Binance provider that authenticates with `key`.
    pub fn new_with_api_key(key: String) -> (r: Self)
        ensures
            r.headers.wf(),
            r.headers@ == binance_headers(key@),
            r.base_url@ == binance_base_url(),
    {
        let mut headers = Headers::new();
        proof {
            reveal_strlit("X-MBX-APIKEY");
            reveal_strlit("x-mbx-apikey");
            reveal_strlit("Content-Type");
            reveal_strlit("content-type");
            assert(ascii_lowercase("X-MBX-APIKEY"@) =~= "x-mbx-apikey"@);
            assert(ascii_lowercase("Content-Type"@) =~= "content-type"@);
        }
        headers.insert("X-MBX-APIKEY", key);
        headers.insert("Content-Type", String::from_str("application/x-www-form-urlencoded"));
        BinanceClient { headers, base_url: String::from_str("https://api.binance.com/api/v3/") }
    }
}

impl ExternalClient for BinanceClient {
    open spec fn base_url_spec(&self) -> Seq<char> {
        self.base_url@
    }

    open spec fn headers_spec(&self) -> Map<Seq<char>, Seq<char>> {
        self.headers@
    }

    fn get_base_url(&self) -> (r: String) {
        self.base_url.clone()
    }

    fn get_headers(&self) -> (r: Headers) {
        self.headers.clone()
    }
}

/// The base URL of the CoinAPI REST API.
pub open spec fn coinapi_base_url() -> Seq<char> {
    "https://rest.coinapi.io/v1/"@
}

/// The header fields of a request to CoinAPI made with `key`.
pub open spec fn coinapi_headers(key: Seq<char>) -> Map<Seq<char>, Seq<char>> {
    Map::empty().insert("x-coinapi-key"@, key).insert("accept"@, "application/json"@)
}

/// The CoinAPI provider, for one API key.
#[derive(Debug, PartialEq, Eq, Clone)]
pub struct CoinApiClient {
    pub headers: Headers,
    pub base_url: String,
}

impl CoinApiClient {
    /// The CoinAPI provider that authenticates with `key`.
    pub fn new_with_key(key: String) -> (r: Self)
        ensures
            r.headers.wf(),
            r.headers@ == coinapi_headers(key@),
            r.base_url@ == coinapi_base_url(),
    {
        let mut headers = Headers::new();
        proof {
            reveal_strlit("X-CoinAPI-Key");
            reveal_strlit("x-coinapi-key");
            reveal_strlit("accept");
            assert(ascii_lowercase("X-CoinAPI-Key"@) =~= "x-coinapi-key"@);
            assert(ascii_lowercase("accept"@) =~= "accept"@);
        }
        headers.insert("X-CoinAPI-Key", key);
        headers.insert("accept", String::from_str("application/json"));
        CoinApiClient { headers, base_url: String::from_str("https://rest.coinapi.io/v1/") }
    }
}

impl ExternalClient for CoinApiClient {
    open spec fn base_url_spec(&self) -> Seq<char> {
        self.base_url@
    }

    open spec fn headers_spec(&self) -> Map<Seq<char>, Seq<char>> {
        self.headers@
    }

    fn get_base_url(&self) -> (r: String) {
        self.base_url.clone()
    }

    fn get_headers(&self) -> (r: Headers) {
        self.headers.clone()
    }
}

} // verus!
