//! Request parameters and bodies sent to the DeltaDeFi API, with their builders.
use vstd::prelude::*;
use vstd::string::StringExecFns;

use crate::model::{Interval, OrderRecordStatus, OrderSide, OrderType, Symbol, TransferalType};

verus! {

/// Parameters for querying order records.
#[derive(Debug, Clone, PartialEq, Eq)]
pub struct OrderRecordParams {
    pub status: OrderRecordStatus,
    pub limit: Option<u32>,
    pub page: Option<u32>,
    pub symbol: Option<String>,
}

impl OrderRecordParams {
    /// Parameters selecting the records of `status`, with no other filter.
    pub fn new(status: OrderRecordStatus) -> (res: Self)
        ensures
            res == (OrderRecordParams { status, limit: None, page: None, symbol: None }),
    {
        OrderRecordParams { status, limit: None, page: None, symbol: None }
    }

    /// The same parameters with a page size of `limit`.
    pub fn with_limit(self, limit: u32) -> (res: Self)
        ensures
            res == (OrderRecordParams { limit: Some(limit), ..self }),
    {
        OrderRecordParams { limit: Some(limit), ..self }
    }

    /// The same parameters with page number `page`.
    pub fn with_page(self, page: u32) -> (res: Self)
        ensures
            res == (OrderRecordParams { page: Some(page), ..self }),
    {
        OrderRecordParams { page: Some(page), ..self }
    }

    /// The same parameters restricted to trading pair `symbol`.
    pub fn with_symbol(self, symbol: String) -> (res: Self)
        ensures
            res == (OrderRecordParams { symbol: Some(symbol), ..self }),
    {
        OrderRecordParams { symbol: Some(symbol), ..self }
    }
}

/// Request for aggregated price data.
#[derive(Debug, Clone, PartialEq, Eq)]
pub struct GetAggregatedPriceRequest {
    pub symbol: Symbol,
    pub interval: Interval,
    pub start: i64,
    pub end: i64,
}

/// Request body for building a withdrawal transaction.
///
/// `new` gives a standard user withdrawal, `new_vault` an owner-only vault withdrawal.
#[derive(Debug, Clone)]
pub struct BuildWithdrawalTransactionRequest {
    pub withdrawal_amount: Vec<whisky::Asset>,
    pub withdraw_type: Option<String>,
    pub vault_id: Option<String>,
    pub from_account_id: Option<String>,
}

impl Default for BuildWithdrawalTransactionRequest {
    fn default() -> (res: Self)
        ensures
            res.withdrawal_amount@.len() == 0,
            res.withdraw_type is None,
            res.vault_id is None,
            res.from_account_id is None,
    {
        BuildWithdrawalTransactionRequest {
            withdrawal_amount: Vec::new(),
            withdraw_type: None,
            vault_id: None,
            from_account_id: None,
        }
    }
}

impl BuildWithdrawalTransactionRequest {
    /// Standard user withdrawal of `withdrawal_amount`.
    pub fn new(withdrawal_amount: Vec<whisky::Asset>) -> (res: Self)
        ensures
            res == (BuildWithdrawalTransactionRequest {
                withdrawal_amount,
                withdraw_type: None,
                vault_id: None,
                from_account_id: None,
            }),
    {
        BuildWithdrawalTransactionRequest {
            withdrawal_amount,
            withdraw_type: None,
            vault_id: None,
            from_account_id: None,
        }
    }

    /// Owner-only withdrawal of `withdrawal_amount` from vault `vault_id`; the
    /// withdrawal type is `vault`.
    pub fn new_vault(withdrawal_amount: Vec<whisky::Asset>, vault_id: String) -> (res: Self)
        ensures
            res.withdrawal_amount == withdrawal_amount,
            res.withdraw_type matches Some(kind) && kind@ == "vault"@,
            res.vault_id == Some(vault_id),
            res.from_account_id is None,
    {
        BuildWithdrawalTransactionRequest {
            withdrawal_amount,
            withdraw_type: Some(String::from_str("vault")),
            vault_id: Some(vault_id),
            from_account_id: None,
        }
    }

    /// The same withdrawal, spending from vault sub-account `from_account_id`.
    pub fn with_from_account_id(self, from_account_id: String) -> (res: Self)
        ensures
            res == (BuildWithdrawalTransactionRequest { from_account_id: Some(from_account_id), ..self }),
    {
        BuildWithdrawalTransactionRequest { from_account_id: Some(from_account_id), ..self }
    }
}

/// Request body for building a transferal transaction. Either `to_address` or
/// `to_account_id` is set by the constructors.
#[derive(Debug, Clone)]
pub struct BuildTransferalTransactionRequest {
    pub transferal_amount: Vec<whisky::Asset>,
    pub to_address: Option<String>,
    pub to_account_id: Option<String>,
    pub transferal_type: Option<TransferalType>,
    pub vault_id: Option<String>,
    pub from_account_id: Option<String>,
}

impl Default for BuildTransferalTransactionRequest {
    fn default() -> (res: Self)
        ensures
            res.transferal_amount@.len() == 0,
            res.to_address is None,
            res.to_account_id is None,
            res.transferal_type is None,
            res.vault_id is None,
            res.from_account_id is None,
    {
        BuildTransferalTransactionRequest {
            transferal_amount: Vec::new(),
            to_address: None,
            to_account_id: None,
            transferal_type: None,
            vault_id: None,
            from_account_id: None,
        }
    }
}

impl BuildTransferalTransactionRequest {
    /// Transfer of `transferal_amount` to wallet address `to_address`.
    pub fn to_address(transferal_amount: Vec<whisky::Asset>, to_address: String) -> (res: Self)
        ensures
            res == (BuildTransferalTransactionRequest {
                transferal_amount,
                to_address: Some(to_address),
                to_account_id: None,
                transferal_type: None,
                vault_id: None,
                from_account_id: None,
            }),
    {
        BuildTransferalTransactionRequest {
            transferal_amount,
            to_address: Some(to_address),
            to_account_id: None,
            transferal_type: None,
            vault_id: None,
            from_account_id: None,
        }
    }

    /// Transfer of `transferal_amount` to DeltaDeFi account `to_account_id`.
    pub fn to_account_id(transferal_amount: Vec<whisky::Asset>, to_account_id: String) -> (res: Self)
        ensures
            res == (BuildTransferalTransactionRequest {
                transferal_amount,
                to_address: None,
                to_account_id: Some(to_account_id),
                transferal_type: None,
                vault_id: None,
                from_account_id: None,
            }),
    {
        BuildTransferalTransactionRequest {
            transferal_amount,
            to_address: None,
            to_account_id: Some(to_account_id),
            transferal_type: None,
            vault_id: None,
            from_account_id: None,
        }
    }

    /// The same transfer with transferal type `transferal_type` (the server defaults
    /// to a normal transfer).
    pub fn with_transferal_type(self, transferal_type: TransferalType) -> (res: Self)
        ensures
            res == (BuildTransferalTransactionRequest { transferal_type: Some(transferal_type), ..self }),
    {
        BuildTransferalTransactionRequest { transferal_type: Some(transferal_type), ..self }
    }

    /// The same transfer, out of vault account `vault_id` (owner-only).
    pub fn with_vault_id(self, vault_id: String) -> (res: Self)
        ensures
            res == (BuildTransferalTransactionRequest { vault_id: Some(vault_id), ..self }),
    {
        BuildTransferalTransactionRequest { vault_id: Some(vault_id), ..self }
    }

    /// The same transfer, spending from vault sub-account `from_account_id`.
    pub fn with_from_account_id(self, from_account_id: String) -> (res: Self)
        ensures
            res == (BuildTransferalTransactionRequest { from_account_id: Some(from_account_id), ..self }),
    {
        BuildTransferalTransactionRequest { from_account_id: Some(from_account_id), ..self }
    }
}

/// Body of a request to build a place-order transaction. Absent options are left out
/// of the body on the wire.
#[derive(Debug, Clone, PartialEq, Eq)]
pub struct PlaceOrderPayload {
    pub symbol: String,
    pub side: OrderSide,
    pub order_type: OrderType,
    pub post_only: bool,
    pub base_quantity: Option<String>,
    pub quote_quantity: Option<String>,
    pub price: Option<String>,
    pub max_slippage_basis_point: Option<String>,
}

} // verus!
