//! Responses of the account endpoints.
use vstd::prelude::*;

use crate::model::{AssetBalance, DepositRecord, Order, PaginatedResponse, TransferalRecord, WithdrawalRecord};

verus! {

/// Response to creating a new API key.
#[derive(Debug, Clone, PartialEq, Eq)]
pub struct CreateNewAPIKeyResponse {
    pub api_key: String,
    pub created_at: String,
}

/// Response to reading the API key.
#[derive(Debug, Clone, PartialEq, Eq)]
pub struct GetAPIKeyResponse {
    pub api_key: String,
    pub created_at: String,
}

/// Response to reading the operation key.
#[derive(Debug, Clone, PartialEq, Eq)]
pub struct GetOperationKeyResponse {
    pub encrypted_operation_key: String,
    pub operation_key_hash: String,
}

/// Response to building a deposit transaction.
#[derive(Debug, Clone, PartialEq, Eq)]
pub struct BuildDepositTransactionResponse {
    pub tx_hex: String,
}

/// Response to submitting a deposit transaction.
#[derive(Debug, Clone, PartialEq, Eq)]
pub struct SubmitDepositTransactionResponse {
    pub tx_hash: String,
}

/// Response to reading the deposit records.
pub type GetDepositRecordsResponse = Vec<DepositRecord>;

/// Response to reading the withdrawal records.
pub type GetWithdrawalRecordsResponse = Vec<WithdrawalRecord>;

/// Response to reading the transferal records.
pub type GetTransferalRecordsResponse = Vec<TransferalRecord>;

/// Response to reading a single order: the order itself.
pub type GetOrderResponse = Order;

/// Response to reading open orders: a page of orders.
pub type GetOpenOrdersResponse = PaginatedResponse<Order>;

/// Response to reading the order history: a page of orders.
pub type GetTradeOrdersResponse = PaginatedResponse<Order>;

/// Response to reading the account's trades: a page of orders.
pub type GetAccountTradesResponse = PaginatedResponse<Order>;

/// Response to reading the account balances.
pub type GetAccountBalanceResponse = Vec<AssetBalance>;

/// Response to building a withdrawal transaction.
#[derive(Debug, Clone, PartialEq, Eq)]
pub struct BuildWithdrawalTransactionResponse {
    pub tx_hex: String,
}

/// Response to building a transferal transaction.
#[derive(Debug, Clone, PartialEq, Eq)]
pub struct BuildTransferalTransactionResponse {
    pub tx_hex: String,
}

/// Response to building a request-transferal transaction.
#[derive(Debug, Clone, PartialEq, Eq)]
pub struct BuildRequestTransferalTransactionResponse {
    pub tx_hex: String,
}

/// Response to submitting a withdrawal transaction.
#[derive(Debug, Clone, PartialEq, Eq)]
pub struct SubmitWithdrawalTransactionResponse {
    pub tx_hash: String,
}

/// Response to submitting a transferal transaction.
#[derive(Debug, Clone, PartialEq, Eq)]
pub struct SubmitTransferalTransactionResponse {
    pub tx_hash: String,
}

/// Response to submitting a request-transferal transaction.
#[derive(Debug, Clone, PartialEq, Eq)]
pub struct SubmitRequestTransferalTransactionResponse {
    pub tx_hash: String,
}

/// Account information.
#[derive(Debug, Clone, PartialEq, Eq)]
pub struct GetAccountInfoResponse {
    pub api_key: String,
    pub api_limit: i32,
    pub created_at: String,
    pub updated_at: String,
}

/// Response to reading the maximum deposit.
#[derive(Debug, Clone, PartialEq, Eq)]
pub struct GetMaxDepositResponse {
    pub max_deposit: String,
}

/// Response to reading the spot account.
#[derive(Debug, Clone, PartialEq, Eq)]
pub struct GetSpotAccountResponse {
    pub account_id: String,
    pub account_type: String,
    pub encrypted_operation_key: String,
    pub operation_key_hash: String,
    pub created_at: String,
}

/// Response to creating a spot account.
#[derive(Debug, Clone, PartialEq, Eq)]
pub struct CreateSpotAccountResponse {
    pub account_id: String,
    pub account_type: String,
    pub encrypted_operation_key: String,
    pub operation_key_hash: String,
    pub created_at: String,
}

/// Response to updating the spot account.
#[derive(Debug, Clone, PartialEq, Eq)]
pub struct UpdateSpotAccountResponse {
    pub account_id: String,
    pub account_type: String,
    pub encrypted_operation_key: String,
    pub operation_key_hash: String,
    pub created_at: String,
    pub updated_at: String,
}

/// Response to reading the transferal record of a transaction; on the wire the record's fields stand at the top level.
#[derive(Debug, Clone, PartialEq, Eq)]
pub struct GetTransferalRecordByTxHashResponse {
    pub record: TransferalRecord,
}

} // verus!
