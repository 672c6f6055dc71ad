//! The market stream: WebSocket endpoints of order book depth, price, recent trades
//! and candlestick streams.
use vstd::prelude::*;

use crate::text::concat3;

verus! {

/// Market data stream client: the WebSocket base URL of the market streams.
#[derive(Debug, Clone)]
pub struct MarketStream {
    pub ws_url: String,
}

impl MarketStream {
    /// A market stream client for `ws_url`.
    pub fn new(ws_url: String) -> (res: Self)
        ensures
            res.ws_url == ws_url,
    {
        MarketStream { ws_url }
    }

    /// The endpoint of the order book depth stream of `symbol`.
    pub fn depth_endpoint(&self, symbol: &str) -> (res: String)
        ensures
            res@ == self.ws_url@ + "/market/ws/depth/"@ + symbol@,
    {
        concat3(self.ws_url.as_str(), "/market/ws/depth/", symbol)
    }

    /// The endpoint of the market price stream of `symbol`.
    pub fn price_endpoint(&self, symbol: &str) -> (res: String)
        ensures
            res@ == self.ws_url@ + "/market/ws/market-price/"@ + symbol@,
    {
        concat3(self.ws_url.as_str(), "/market/ws/market-price/", symbol)
    }

    /// The endpoint of the recent trades stream of `symbol`.
    pub fn recent_trades_endpoint(&self, symbol: &str) -> (res: String)
        ensures
            res@ == self.ws_url@ + "/market/ws/recent-trade/"@ + symbol@,
    {
        concat3(self.ws_url.as_str(), "/market/ws/recent-trade/", symbol)
    }

    /// The endpoint of the candlestick stream of `symbol` per `interval`.
    pub fn ohlc_endpoint(&self, symbol: &str, interval: &str) -> (res: String)
        ensures
            res@ == self.ws_url@ + "/market/ws/graph/"@ + symbol@ + "/"@ + interval@,
    {
        let prefix = concat3(self.ws_url.as_str(), "/market/ws/graph/", symbol);
        concat3(prefix.as_str(), "/", interval)
    }
}

} // verus!
