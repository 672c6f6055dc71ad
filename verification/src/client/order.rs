//! Order management: validation of order parameters and the requests that place,
//! submit and cancel orders.
use vstd::prelude::*;
use vstd::string::StringExecFns;

use super::request::{ApiRequest, HttpMethod, RequestBody};
use super::Api;
use crate::model::{OrderSide, OrderType};
use crate::requests::PlaceOrderPayload;
use crate::text::{concat, concat3};

verus! {

/// Why order parameters were rejected before any request was sent.
#[derive(Debug, Clone, Copy, PartialEq, Eq, Structural)]
pub enum OrderParamError {
    /// The symbol is empty.
    MissingSymbol,
    /// Neither a base nor a quote quantity was given.
    MissingQuantity,
    /// Both a base and a quote quantity were given.
    ConflictingQuantities,
    /// A limit order was given no price.
    MissingLimitPrice,
}

impl OrderParamError {
    /// The message reporting the error.
    pub fn message(&self) -> (res: &'static str)
        ensures
            res@ == match *self {
                OrderParamError::MissingSymbol => "Missing required parameter: symbol"@,
                OrderParamError::MissingQuantity => "Either base_quantity or quote_quantity must be provided"@,
                OrderParamError::ConflictingQuantities => "Cannot provide both base_quantity and quote_quantity"@,
                OrderParamError::MissingLimitPrice => "Missing required parameter: price for limit order"@,
            },
    {
        match self {
            OrderParamError::MissingSymbol => "Missing required parameter: symbol",
            OrderParamError::MissingQuantity => "Either base_quantity or quote_quantity must be provided",
            OrderParamError::ConflictingQuantities => "Cannot provide both base_quantity and quote_quantity",
            OrderParamError::MissingLimitPrice => "Missing required parameter: price for limit order",
        }
    }
}

/// The first rule that order parameters break, checked in this order: a symbol is
/// given, exactly one of the base and quote quantities is given, and a limit order
/// has a price.
pub open spec fn order_param_error(
    symbol: Seq<char>,
    order_type: OrderType,
    base_quantity: Option<String>,
    quote_quantity: Option<String>,
    price: Option<String>,
) -> Option<OrderParamError> {
    if symbol.len() == 0 {
        Some(OrderParamError::MissingSymbol)
    } else if base_quantity is None && quote_quantity is None {
        Some(OrderParamError::MissingQuantity)
    } else if base_quantity is Some && quote_quantity is Some {
        Some(OrderParamError::ConflictingQuantities)
    } else if order_type == OrderType::Limit && price is None {
        Some(OrderParamError::MissingLimitPrice)
    } else {
        None
    }
}

/// Client for order management operations.
pub struct Order {
    /// Internal API client.
    pub api: Api,
    /// Base path of the order endpoints.
    pub path_url: String,
}

impl Order {
    /// The order client over `api`, rooted at `/order`.
    pub fn new(api: Api) -> (res: Self)
        ensures
            res.api == api,
            res.path_url@ == "/order"@,
    {
        Order { api, path_url: String::from_str("/order") }
    }

    /// Checks order parameters and builds the request for an unsigned place-order
    /// transaction. Parameters are rejected when the symbol is empty, when not exactly
    /// one of the base and quote quantities is given, or when a limit order has no
    /// price. The price is required for limit orders and ignored for market orders;
    /// `post_only` defaults to false.
    pub fn build_place_order_transaction_request(
        &self,
        symbol: &str,
        side: OrderSide,
        order_type: OrderType,
        base_quantity: Option<String>,
        quote_quantity: Option<String>,
        price: Option<String>,
        max_slippage_basis_point: Option<String>,
        post_only: Option<bool>,
    ) -> (res: Result<ApiRequest, OrderParamError>)
        ensures
            match order_param_error(symbol@, order_type, base_quantity, quote_quantity, price) {
                Some(err) => res == Err::<ApiRequest, OrderParamError>(err),
                None => res matches Ok(req) && {
                    &&& req.method == HttpMethod::Post
                    &&& req.path@ == self.path_url@ + "/build"@
                    &&& req.query is None
                    &&& req.body matches Some(RequestBody::PlaceOrder(payload)) && {
                        &&& payload.symbol@ == symbol@
                        &&& payload.side == side
                        &&& payload.order_type == order_type
                        &&& payload.post_only == post_only.unwrap_or(false)
                        &&& payload.base_quantity == base_quantity
                        &&& payload.quote_quantity == quote_quantity
                        &&& payload.price == if order_type == OrderType::Limit { price } else { None }
                        &&& payload.max_slippage_basis_point == max_slippage_basis_point
                    }
                },
            },
    {
        if symbol.is_empty() {
            return Err(OrderParamError::MissingSymbol);
        }
        match (&base_quantity, &quote_quantity) {
            (None, None) => {
                return Err(OrderParamError::MissingQuantity);
            },
            (Some(_), Some(_)) => {
                return Err(OrderParamError::ConflictingQuantities);
            },
            _ => {},
        }
        let is_limit = match order_type {
            OrderType::Limit => true,
            OrderType::Market => false,
        };
        if is_limit && price.is_none() {
            return Err(OrderParamError::MissingLimitPrice);
        }
        let price = if is_limit { price } else { None };
        let post_only = match post_only {
            Some(flag) => flag,
            None => false,
        };
        let payload = PlaceOrderPayload {
            symbol: String::from_str(symbol),
            side,
            order_type,
            post_only,
            base_quantity,
            quote_quantity,
            price,
            max_slippage_basis_point,
        };
        let path = concat(self.path_url.as_str(), "/build");
        Ok(ApiRequest::with_body(HttpMethod::Post, path, RequestBody::PlaceOrder(payload)))
    }

    /// Request that submits the signed transaction of order `order_id`.
    pub fn submit_place_order_transaction_request(&self, order_id: &str, signed_tx: &str) -> (res: ApiRequest)
        ensures
            res.method == HttpMethod::Post,
            res.path@ == self.path_url@ + "/submit"@,
            res.query is None,
            res.body matches Some(RequestBody::SubmitPlaceOrder { order_id: o, signed_tx: t })
                && o@ == order_id@ && t@ == signed_tx@,
    {
        let body = RequestBody::SubmitPlaceOrder {
            order_id: String::from_str(order_id),
            signed_tx: String::from_str(signed_tx),
        };
        ApiRequest::with_body(HttpMethod::Post, concat(self.path_url.as_str(), "/submit"), body)
    }

    /// Request that cancels order `order_id` directly, without signing.
    pub fn cancel_order_request(&self, order_id: &str) -> (res: ApiRequest)
        ensures
            res.sends(HttpMethod::Post, self.path_url@ + "/"@ + order_id@ + "/cancel"@, RequestBody::Empty),
    {
        let prefix = concat(self.path_url.as_str(), "/");
        let path = concat3(prefix.as_str(), order_id, "/cancel");
        ApiRequest::with_body(HttpMethod::Post, path, RequestBody::Empty)
    }

    /// Request that cancels every open order of `symbol`.
    pub fn cancel_all_orders_request(&self, symbol: &str) -> (res: ApiRequest)
        ensures
            res.method == HttpMethod::Post,
            res.path@ == self.path_url@ + "/cancel-all"@,
            res.query is None,
            res.body matches Some(RequestBody::CancelAll { symbol: s }) && s@ == symbol@,
    {
        let body = RequestBody::CancelAll { symbol: String::from_str(symbol) };
        ApiRequest::with_body(HttpMethod::Post, concat(self.path_url.as_str(), "/cancel-all"), body)
    }
}

/// Order parameters are accepted exactly when the symbol is not empty, exactly one of
/// the base and quote quantities is given, and a limit order has a price.
pub proof fn lemma_accepted_orders(
    symbol: Seq<char>,
    order_type: OrderType,
    base_quantity: Option<String>,
    quote_quantity: Option<String>,
    price: Option<String>,
)
    ensures
        order_param_error(symbol, order_type, base_quantity, quote_quantity, price) is None <==> {
            &&& symbol.len() > 0
            &&& (base_quantity is Some) != (quote_quantity is Some)
            &&& order_type == OrderType::Limit ==> price is Some
        },
{
}

} // verus!
