use crypto_service::binance::{OrderBook, OrderBookResponse, Params, QueryItem};
use crypto_service::coin_watch::{CoinHistoryRequest, CoinMetaRequest, ListOfCoinsRequest};
use crypto_service::coinapi::{AssetIconsParams, SymbolsParams};
use crypto_service::alphavantage::GainersLosersParams;
use crypto_service::query::QueryItems;

#[test]
fn new_coin_history_request_currency() {
    assert_eq!(
        CoinHistoryRequest::new("BTC".into(), 123456789, 123456799, false).currency,
        "USD".to_string()
    );
}

#[test]
fn new_list_of_coins_request_limit() {
    assert_eq!(ListOfCoinsRequest::new(15).limit, 15);
}

#[test]
fn new_list_of_coins_request_sort_rank() {
    assert_eq!(ListOfCoinsRequest::new(15).sort, "rank");
}

#[test]
fn new_list_of_coins_request_currency() {
    assert_eq!(ListOfCoinsRequest::new(15).currency, "USD");
}

#[test]
fn new_list_of_coins_request_order_ascending() {
    assert_eq!(ListOfCoinsRequest::new(15).order, "ascending");
}

#[test]
fn new_coin_meta_request_currency() {
    assert_eq!(CoinMetaRequest::new("BTC".into()).currency, "USD".to_string());
}

#[test]
fn new_orderbook_response() {
    let orderbook_response = OrderBookResponse::new();
    assert_eq!(orderbook_response.asks, vec![vec![String::new()]]);
    assert_eq!(orderbook_response.bids, vec![vec![String::new()]]);
    assert_eq!(orderbook_response.last_update_id, 0)
}

#[test]
fn orderbook_response_from_data() {
    let orderbook_response = OrderBookResponse::from(
        vec![vec!["55".to_string()]],
        vec![vec!["44".to_string()]],
        12345,
    );
    assert_eq!(
        orderbook_response,
        OrderBookResponse {
            asks: vec![vec!["55".to_string()]],
            bids: vec![vec!["44".to_string()]],
            last_update_id: 12345
        }
    )
}

#[test]
fn orderbook_response_from_data_assert_data() {
    let orderbook_response = OrderBookResponse::from(
        vec![vec!["0.05161000".to_string(), "32.45550000".to_string()]],
        vec![vec!["0.05160000".to_string(), "133.57940000".to_string()]],
        7010139557,
    );
    assert_eq!(
        orderbook_response.asks,
        vec![vec!["0.05161000".to_string(), "32.45550000".to_string()]]
    );
    assert_eq!(
        orderbook_response.bids,
        vec![vec!["0.05160000".to_string(), "133.57940000".to_string()]]
    );
    assert_eq!(orderbook_response.last_update_id, 7010139557);
}

#[test]
fn new_orderbook_is_placeholder() {
    let book = OrderBook::new();
    assert_eq!(book.asks, vec![vec![String::new()]]);
    assert_eq!(book.bids, vec![vec![String::new()]]);
    assert_eq!(book.last_update_id, 0);
    assert_eq!(OrderBook::default(), book);
}

#[test]
fn orderbook_from_keeps_levels() {
    let book = OrderBook::from(vec![vec!["1".into(), "2".into()]], vec![], 42);
    assert_eq!(book.asks, vec![vec!["1".to_string(), "2".to_string()]]);
    assert!(book.bids.is_empty());
    assert_eq!(book.last_update_id, 42);
}

#[test]
fn new_list_of_coins_request_defaults() {
    let request = ListOfCoinsRequest::new(7);
    assert_eq!(request.offset, 0);
    assert!(request.meta);
}

#[test]
fn new_coin_history_request_keeps_arguments() {
    let request = CoinHistoryRequest::new("ETH".into(), 1, 2, true);
    assert_eq!(request.code, "ETH");
    assert_eq!((request.start, request.end, request.meta), (1, 2, true));
}

#[test]
fn params_queries_with_limit() {
    let params = Params { symbol: "ETHBTC".into(), limit: Some(10) };
    let queries = params.get_all_queries();
    assert_eq!(queries.len(), 2);
    assert_eq!(queries.get("symbol").unwrap(), "ETHBTC");
    assert_eq!(queries.get("limit").unwrap(), "10");
    assert_eq!(params.get_symbol(), "ETHBTC");
    assert_eq!(params.get_limit(), Some(10));
}

#[test]
fn params_queries_without_limit() {
    let params = Params { symbol: "ETHBTC".into(), limit: None };
    let queries = params.get_all_queries();
    assert_eq!(queries.len(), 1);
    assert!(queries.get("limit").is_none());
}

#[test]
fn params_queries_largest_limit() {
    let params = Params { symbol: "X".into(), limit: Some(65535) };
    assert_eq!(params.get_all_queries().get("limit").unwrap(), "65535");
}

#[test]
fn asset_icons_queries_negative_size() {
    let queries = AssetIconsParams { size: -32 }.get_all_queries();
    assert_eq!(queries.get("size").unwrap(), "-32");
    let queries = AssetIconsParams { size: 64 }.get_all_queries();
    assert_eq!(queries.get("size").unwrap(), "64");
}

#[test]
fn symbols_queries_are_empty() {
    assert_eq!(SymbolsParams {}.get_all_queries().len(), 0);
}

#[test]
fn gainers_losers_queries_use_key() {
    let params = GainersLosersParams { function: "f".into(), key: "ignored".into() };
    let queries = params.queries_with_key("KEY1".into());
    assert_eq!(queries.get("function").unwrap(), "TOP_GAINERS_LOSERS");
    assert_eq!(queries.get("apikey").unwrap(), "KEY1");
    assert_eq!(queries.len(), 2);
}
