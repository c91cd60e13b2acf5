use vstd::prelude::*;
use crate::query::{QueryItems, i32_to_decimal, signed_decimal};
use crate::string_map::StringMap;

verus! {

/// The icon of an asset on CoinAPI.
#[derive(Debug, PartialEq, Eq, Clone, Default)]
pub struct AssetIcons {
    pub exchange_id: Option<String>,
    pub asset_id: String,
    pub url: Option<String>,
}

/// Query parameters of the symbols endpoint: none.
#[derive(Debug, PartialEq, Eq, Clone, Copy, Default)]
pub struct SymbolsParams {}

/// Query parameters of the asset icons endpoint.
#[derive(Debug, PartialEq, Eq, Clone, Copy, Default)]
pub struct AssetIconsParams {
    pub size: i32,
}

impl QueryItems for AssetIconsParams {
    fn get_all_queries(&self) -> (r: StringMap)
        ensures
            r@ == Map::<Seq<char>, Seq<char>>::empty().insert("size"@, signed_decimal(self.size as int)),
    {
        let mut queries = StringMap::new();
        queries.insert(String::from_str("size"), i32_to_decimal(self.size));
        queries
    }
}

impl QueryItems for SymbolsParams {
    fn get_all_queries(&self) -> (r: StringMap)
        ensures
            r@ == Map::<Seq<char>, Seq<char>>::empty(),
    {
        StringMap::new()
    }
}

/// Whatever a provider lists as an asset.
pub trait Asset {}

} // verus!
