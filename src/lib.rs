//! A bridge that lets a foreign runtime perform network operations for this
//! library: requests go out through a call, outcomes come back once through a
//! listener, and a gateway turns raw responses into typed values.

pub mod error;
pub mod string_map;
pub mod headers;
pub mod network;
pub mod clients;
pub mod dispatch;
pub mod gateway;
pub mod query;
pub mod coin_watch;
pub mod binance;
pub mod coinapi;
pub mod alphavantage;
