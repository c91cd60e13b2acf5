use vstd::prelude::*;

verus! {

/// The body of a "list of coins" request to Live Coin Watch.
#[derive(Debug, PartialEq, Eq, Clone)]
pub struct ListOfCoinsRequest {
    pub currency: String,
    pub sort: String,
    pub order: String,
    pub offset: u8,
    pub limit: u32,
    pub meta: bool,
}

impl ListOfCoinsRequest {
    /// The first `limit` coins by rank, ascending, priced in USD, with meta data.
    pub fn new(limit: u32) -> (r: Self)
        ensures
            r.currency@ == "USD"@,
            r.sort@ == "rank"@,
            r.order@ == "ascending"@,
            r.offset == 0,
            r.limit == limit,
            r.meta,
    {
        ListOfCoinsRequest {
            currency: String::from_str("USD"),
            sort: String::from_str("rank"),
            order: String::from_str("ascending"),
            offset: 0,
            limit,
            meta: true,
        }
    }
}

/// The body of a "coin history" request to Live Coin Watch.
#[derive(Debug, PartialEq, Eq, Clone)]
pub struct CoinHistoryRequest {
    pub currency: String,
    pub code: String,
    pub start: u64,
    pub end: u64,
    pub meta: bool,
}

impl CoinHistoryRequest {
    /// The history of coin `code` from `start` to `end`, priced in USD.
    pub fn new(code: String, start: u64, end: u64, meta: bool) -> (r: Self)
        ensures
            r.currency@ == "USD"@,
            r.code == code,
            r.start == start,
            r.end == end,
            r.meta == meta,
    {
        CoinHistoryRequest { currency: String::from_str("USD"), code, start, end, meta }
    }
}

/// The orders in which Live Coin Watch can sort a list of coins.
#[derive(Debug, PartialEq, Eq, Clone, Copy)]
pub enum Sort {
    Rank,
    Price,
    Volume,
    Code,
    Name,
    Age,
}

/// The body of a "coin meta" request to Live Coin Watch.
#[derive(Debug, PartialEq, Eq, Clone)]
pub struct CoinMetaRequest {
    pub currency: String,
    pub code: String,
    pub meta: bool,
}

impl CoinMetaRequest {
    /// The meta data of coin `code`, priced in USD.
    pub fn new(code: String) -> (r: Self)
        ensures
            r.currency@ == "USD"@,
            r.code == code,
            r.meta,
    {
        CoinMetaRequest { currency: String::from_str("USD"), code, meta: true }
    }
}

/// Links of a coin.
#[derive(Debug, PartialEq, Eq, Clone)]
pub struct Links {
    pub website: Option<String>,
    pub whitepaper: Option<String>,
}

} // verus!
