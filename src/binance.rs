use vstd::prelude::*;
use crate::query::{QueryItems, decimal, u16_to_decimal};
use crate::string_map::StringMap;

verus! {

/// A price level list with one empty entry, as an empty order book holds.
pub open spec fn placeholder_levels(levels: Seq<Vec<String>>) -> bool {
    levels.len() == 1 && levels[0]@.len() == 1 && levels[0]@[0]@ == Seq::<char>::empty()
}

fn placeholder_level_list() -> (r: Vec<Vec<String>>)
    ensures
        placeholder_levels(r@),
{
    let mut level: Vec<String> = Vec::new();
    level.push(String::new());
    let mut levels: Vec<Vec<String>> = Vec::new();
    levels.push(level);
    levels
}

/// The order book of a symbol on Binance: ask and bid levels, each a
/// (price, quantity) list of decimal strings.
#[derive(Debug, PartialEq, Eq)]
pub struct OrderBook {
    pub asks: Vec<Vec<String>>,
    pub bids: Vec<Vec<String>>,
    pub last_update_id: u64,
}

impl OrderBook {
    /// An order book with one empty ask level and one empty bid level.
    pub fn new() -> (r: Self)
        ensures
            placeholder_levels(r.asks@),
            placeholder_levels(r.bids@),
            r.last_update_id == 0,
    {
        OrderBook { asks: placeholder_level_list(), bids: placeholder_level_list(), last_update_id: 0 }
    }

    /// An order book of the given levels and update id.
    pub fn from(asks: Vec<Vec<String>>, bids: Vec<Vec<String>>, last_update_id: u64) -> (r: Self)
        ensures
            r.asks == asks,
            r.bids == bids,
            r.last_update_id == last_update_id,
    {
        OrderBook { asks, bids, last_update_id }
    }
}

impl Default for OrderBook {
    fn default() -> (r: Self)
        ensures
            placeholder_levels(r.asks@),
            placeholder_levels(r.bids@),
            r.last_update_id == 0,
    {
        Self::new()
    }
}

/// The order book as the server relays it.
#[derive(Debug, PartialEq, Eq)]
pub struct OrderBookResponse {
    pub asks: Vec<Vec<String>>,
    pub bids: Vec<Vec<String>>,
    pub last_update_id: usize,
}

impl OrderBookResponse {
    /// An order book with one empty ask level and one empty bid level.
    pub fn new() -> (r: Self)
        ensures
            placeholder_levels(r.asks@),
            placeholder_levels(r.bids@),
            r.last_update_id == 0,
    {
        OrderBookResponse {
            asks: placeholder_level_list(),
            bids: placeholder_level_list(),
            last_update_id: 0,
        }
    }

    /// An order book of the given levels and update id.
    pub fn from(asks: Vec<Vec<String>>, bids: Vec<Vec<String>>, last_update_id: usize) -> (r: Self)
        ensures
            r.asks == asks,
            r.bids == bids,
            r.last_update_id == last_update_id,
    {
        OrderBookResponse { asks, bids, last_update_id }
    }
}

/// One recent trade on Binance.
#[derive(Debug, PartialEq, Eq, Clone)]
pub struct RecentTradesResponse {
    pub id: u64,
    pub price: String,
    pub quantity: String,
    pub quote_quantity: String,
    pub time: u64,
    pub is_buyer_maker: bool,
    pub is_best_match: bool,
}

/// Query parameters of the order book and trades endpoints.
#[derive(Debug, PartialEq, Eq, Clone)]
pub struct Params {
    pub symbol: String,
    pub limit: Option<u16>,
}

/// The query parameters of `symbol` and `limit`: the symbol, and the limit in
/// decimal when there is one.
pub open spec fn params_queries(symbol: Seq<char>, limit: Option<u16>) -> Map<Seq<char>, Seq<char>> {
    match limit {
        Some(l) => Map::empty().insert("symbol"@, symbol).insert("limit"@, decimal(l as nat)),
        None => Map::empty().insert("symbol"@, symbol),
    }
}

impl QueryItems for Params {
    fn get_all_queries(&self) -> (r: StringMap)
        ensures
            r@ == params_queries(self.symbol@, self.limit),
    {
        let mut queries = StringMap::new();
        queries.insert(String::from_str("symbol"), self.symbol.clone());
        if let Some(limit) = self.limit {
            queries.insert(String::from_str("limit"), u16_to_decimal(limit));
        }
        queries
    }
}

/// A request that names a symbol and an optional limit.
pub trait QueryItem {
    fn get_symbol(&self) -> String;

    fn get_limit(&self) -> Option<u16>;
}

impl QueryItem for Params {
    fn get_symbol(&self) -> (r: String)
        ensures
            r == self.symbol,
    {
        self.symbol.clone()
    }

    fn get_limit(&self) -> (r: Option<u16>)
        ensures
            r == self.limit,
    {
        self.limit
    }
}

} // verus!
