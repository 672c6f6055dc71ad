//! Responses of the order endpoints.
use vstd::prelude::*;

use crate::model::Order;

verus! {

/// Response to building a place-order transaction.
#[derive(Debug, Clone, PartialEq, Eq)]
pub struct BuildPlaceOrderTransactionResponse {
    pub order_id: String,
    pub tx_hex: String,
}

/// Response to submitting a place-order transaction.
#[derive(Debug, Clone, PartialEq, Eq)]
pub struct SubmitPlaceOrderTransactionResponse {
    pub order: Order,
}

/// Response to cancelling an order.
#[derive(Debug, Clone, PartialEq, Eq)]
pub struct CancelOrderResponse {
    pub order_id: String,
}

/// Response to cancelling all orders of a symbol.
#[derive(Debug, Clone, PartialEq, Eq)]
pub struct CancelAllOrdersResponse {
    pub symbol: String,
    pub order_ids: Vec<String>,
}

} // verus!
