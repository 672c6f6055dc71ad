//! Market data: current prices and aggregated historical prices.
use vstd::prelude::*;
use vstd::string::StringExecFns;

use super::request::ApiRequest;
use super::Api;
use crate::model::{interval_name, symbol_name, Interval, Symbol};
use crate::text::{concat3, int_decimal, push_i64};

verus! {

/// Client for market data operations.
pub struct Market {
    /// Internal API client.
    pub api: Api,
    /// Base path of the market endpoints.
    pub path_url: String,
}

/// The path, below the market root, of the aggregated prices of `symbol` per
/// `interval` between timestamps `start` and `end`.
pub open spec fn aggregated_price_path(symbol: Symbol, interval: Interval, start: i64, end: i64) -> Seq<char> {
    "/graph/"@ + symbol_name(symbol) + "?interval="@ + interval_name(interval)
        + "&start="@ + int_decimal(start as int) + "&end="@ + int_decimal(end as int)
}

impl Market {
    /// The market client over `api`, rooted at `/market`.
    pub fn new(api: Api) -> (res: Self)
        ensures
            res.api == api,
            res.path_url@ == "/market"@,
    {
        Market { api, path_url: String::from_str("/market") }
    }

    /// Request that reads the current market price of trading pair `symbol`.
    pub fn get_market_price_request(&self, symbol: &str) -> (res: ApiRequest)
        ensures
            res.is_plain_get(self.path_url@ + "/market-price?symbol="@ + symbol@),
    {
        ApiRequest::get(concat3(self.path_url.as_str(), "/market-price?symbol=", symbol), None)
    }

    /// Request that reads the candlesticks of `symbol` per `interval` between the Unix
    /// timestamps `start` and `end`.
    pub fn get_aggregated_price_request(&self, symbol: Symbol, interval: Interval, start: i64, end: i64) -> (res: ApiRequest)
        ensures
            res.is_plain_get(self.path_url@ + aggregated_price_path(symbol, interval, start, end)),
            res.path@ == self.path_url@ + "/graph/"@ + symbol_name(symbol) + "?interval="@
                + interval_name(interval) + "&start="@ + int_decimal(start as int) + "&end="@
                + int_decimal(end as int),
    {
        let mut path = concat3(self.path_url.as_str(), "/graph/", symbol.as_str());
        path.append("?interval=");
        path.append(interval.as_str());
        path.append("&start=");
        push_i64(&mut path, start);
        path.append("&end=");
        push_i64(&mut path, end);
        assert(path@ =~= self.path_url@ + aggregated_price_path(symbol, interval, start, end));
        ApiRequest::get(path, None)
    }
}

/// The aggregated price paths of different intervals differ, whatever the symbol and
/// time range: a request for one interval never asks for the candles of another.
pub proof fn lemma_aggregated_price_path_tells_intervals(
    symbol: Symbol,
    first: Interval,
    second: Interval,
    start: i64,
    end: i64,
)
    requires
        first != second,
    ensures
        aggregated_price_path(symbol, first, start, end) != aggregated_price_path(symbol, second, start, end),
{
    lemma_interval_names_differ_early(first, second);
    let prefix = "/graph/"@ + symbol_name(symbol) + "?interval="@;
    let tail = "&start="@ + int_decimal(start as int) + "&end="@ + int_decimal(end as int);
    let a = prefix + interval_name(first) + tail;
    let b = prefix + interval_name(second) + tail;
    assert(aggregated_price_path(symbol, first, start, end) =~= a);
    assert(aggregated_price_path(symbol, second, start, end) =~= b);
    let k = prefix.len() as int;
    assert(a[k] == interval_name(first)[0]);
    assert(a[k + 1] == interval_name(first)[1]);
    assert(b[k] == interval_name(second)[0]);
    assert(b[k + 1] == interval_name(second)[1]);
}

/// Every interval name has at least two characters, and the first two characters of
/// the names of different intervals differ.
proof fn lemma_interval_names_differ_early(first: Interval, second: Interval)
    requires
        first != second,
    ensures
        interval_name(first).len() >= 2,
        interval_name(second).len() >= 2,
        interval_name(first)[0] != interval_name(second)[0]
            || interval_name(first)[1] != interval_name(second)[1],
{
    reveal_strlit("5m");
    reveal_strlit("15m");
    reveal_strlit("30m");
    reveal_strlit("1h");
    reveal_strlit("1d");
}

} // verus!
