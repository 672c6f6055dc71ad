//! Description of an HTTP request to the DeltaDeFi API: method, path under the base
//! URL, query parameters and JSON body. Every endpoint of the clients produces one;
//! sending it and reading the response is left to the transport.
use vstd::prelude::*;

use crate::client::accounts::OrderQueryParams;
use crate::requests::{
    BuildTransferalTransactionRequest, BuildWithdrawalTransactionRequest, PlaceOrderPayload,
};

verus! {

/// HTTP method of a request.
#[derive(Debug, Clone, Copy, PartialEq, Eq, Structural)]
pub enum HttpMethod {
    Get,
    Post,
    Patch,
    Delete,
}

/// JSON body of a request.
#[derive(Debug, Clone)]
pub enum RequestBody {
    /// The empty object `{}`.
    Empty,
    /// `{"signed_tx": ..}`.
    SignedTx { signed_tx: String },
    /// `{"encrypted_operation_key": .., "operation_key_hash": ..}`.
    OperationKey { encrypted_operation_key: String, operation_key_hash: String },
    /// `{"deposit_amount": [..], "input_utxos": [..]}`.
    Deposit { deposit_amount: Vec<whisky::Asset>, input_utxos: Vec<whisky::UTxO> },
    /// A withdrawal request.
    Withdrawal(BuildWithdrawalTransactionRequest),
    /// A transferal request.
    Transferal(BuildTransferalTransactionRequest),
    /// `{"transferal_amount": [..], "to_address": ..}`.
    RequestTransferal { transferal_amount: Vec<whisky::Asset>, to_address: String },
    /// A place-order request.
    PlaceOrder(PlaceOrderPayload),
    /// `{"order_id": .., "signed_tx": ..}`.
    SubmitPlaceOrder { order_id: String, signed_tx: String },
    /// `{"symbol": ..}`.
    CancelAll { symbol: String },
}

/// An HTTP request to the API.
#[derive(Debug, Clone)]
pub struct ApiRequest {
    pub method: HttpMethod,
    /// Path below the base URL of the API.
    pub path: String,
    /// Query parameters, if any.
    pub query: Option<OrderQueryParams>,
    /// JSON body, if any.
    pub body: Option<RequestBody>,
}

impl ApiRequest {
    /// A `GET` of `path` without query or body.
    pub open spec fn is_plain_get(self, path: Seq<char>) -> bool {
        &&& self.method == HttpMethod::Get
        &&& self.path@ == path
        &&& self.query is None
        &&& self.body is None
    }

    /// A request of `method` on `path` without query, carrying `body`.
    pub open spec fn sends(self, method: HttpMethod, path: Seq<char>, body: RequestBody) -> bool {
        &&& self.method == method
        &&& self.path@ == path
        &&& self.query is None
        &&& self.body == Some(body)
    }

    /// A request of `method` on `path` without query, whose body is
    /// `{"signed_tx": signed_tx}`.
    pub open spec fn sends_signed_tx(self, method: HttpMethod, path: Seq<char>, signed_tx: Seq<char>) -> bool {
        &&& self.method == method
        &&& self.path@ == path
        &&& self.query is None
        &&& self.body matches Some(RequestBody::SignedTx { signed_tx: t }) && t@ == signed_tx
    }

    /// A `GET` of `path` with no body and the given query.
    pub fn get(path: String, query: Option<OrderQueryParams>) -> (res: Self)
        ensures
            res == (ApiRequest { method: HttpMethod::Get, path, query, body: None }),
    {
        ApiRequest { method: HttpMethod::Get, path, query, body: None }
    }

    /// A request of `method` on `path` carrying `body`, without query.
    pub fn with_body(method: HttpMethod, path: String, body: RequestBody) -> (res: Self)
        ensures
            res == (ApiRequest { method, path, query: None, body: Some(body) }),
    {
        ApiRequest { method, path, query: None, body: Some(body) }
    }
}

} // verus!
