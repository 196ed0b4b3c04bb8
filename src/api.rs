//! The request and response types of the REST endpoints, and the paths
//! and query strings that address them.

/// The status-tagged envelope of many responses.
pub mod response;

/// Aggregate prices of stocks.
pub mod aggregates;
/// The available exchanges.
pub mod exchanges;
/// The available locales.
pub mod locales;
/// The current market status.
pub mod market_status;
/// The available markets.
pub mod markets;
/// Quote prices of stocks.
pub mod quotes;
/// A single ticker.
pub mod ticker;
/// News about a ticker.
pub mod ticker_news;
/// The available ticker types.
pub mod ticker_types;
/// Pages of tickers.
pub mod tickers;

pub use response::Response;
pub use response::ResponseError;
