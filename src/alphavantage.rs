use vstd::prelude::*;
use crate::string_map::StringMap;

verus! {

/// The day's top gainers, top losers and most actively traded tickers.
#[derive(Debug, PartialEq, Eq, Clone)]
pub struct TopAndBottomTrades {
    pub metadata: String,
    pub last_updated: String,
    pub top_gainers: Vec<MostActivelyTraded>,
    pub top_losers: Vec<MostActivelyTraded>,
    pub most_actively_traded: Vec<MostActivelyTraded>,
}

/// One ticker of a top list.
#[derive(Debug, PartialEq, Eq, Clone)]
pub struct MostActivelyTraded {
    pub ticker: String,
    pub price: String,
    pub change_amount: String,
    pub change_percentage: String,
    pub volume: String,
}

/// Query parameters of the gainers and losers endpoint.
#[derive(Debug, PartialEq, Eq, Clone)]
pub struct GainersLosersParams {
    pub function: String,
    pub key: String,
}

impl GainersLosersParams {
    /// The query of the gainers and losers endpoint, made with `api_key`.
    pub fn queries_with_key(&self, api_key: String) -> (r: StringMap)
        ensures
            r.wf(),
            r@ == Map::<Seq<char>, Seq<char>>::empty().insert("function"@, "TOP_GAINERS_LOSERS"@).insert(
                "apikey"@,
                api_key@,
            ),
    {
        let mut queries = StringMap::new();
        queries.insert(String::from_str("function"), String::from_str("TOP_GAINERS_LOSERS"));
        queries.insert(String::from_str("apikey"), api_key);
        queries
    }
}

} // verus!
