//! Account management: API and operation keys, spot account, balances, deposits,
//! withdrawals, transferals and order queries. Each operation is described by the
//! request it sends.
use vstd::prelude::*;
use vstd::string::StringExecFns;

use super::request::{ApiRequest, HttpMethod, RequestBody};
use super::Api;
use crate::requests::{BuildTransferalTransactionRequest, BuildWithdrawalTransactionRequest};
use crate::text::concat;

verus! {

/// Query parameters of paginated order requests. Absent options are left out of the
/// query string.
#[derive(Debug, Clone, PartialEq, Eq)]
pub struct OrderQueryParams {
    pub symbol: Option<String>,
    pub limit: Option<u32>,
    pub page: Option<u32>,
}

/// The page size used when none is given.
pub const DEFAULT_PAGE_LIMIT: u32 = 10;

/// The page number used when none is given.
pub const DEFAULT_PAGE: u32 = 1;

impl OrderQueryParams {
    /// The query for `symbol` (if any) with the given page size and page, defaulting to
    /// pages of 10 records and to the first page.
    pub fn paged(symbol: Option<String>, limit: Option<u32>, page: Option<u32>) -> (res: Self)
        ensures
            res.symbol == symbol,
            res.limit == Some(limit.unwrap_or(DEFAULT_PAGE_LIMIT)),
            res.page == Some(page.unwrap_or(DEFAULT_PAGE)),
    {
        let limit = match limit {
            Some(l) => l,
            None => DEFAULT_PAGE_LIMIT,
        };
        let page = match page {
            Some(p) => p,
            None => DEFAULT_PAGE,
        };
        OrderQueryParams { symbol, limit: Some(limit), page: Some(page) }
    }
}

/// Client for account-related operations.
pub struct Accounts {
    /// Internal API client.
    pub api: Api,
    /// Base path of the account endpoints.
    pub path_url: String,
}

impl Accounts {
    /// The account client over `api`, rooted at `/accounts`.
    pub fn new(api: Api) -> (res: Self)
        ensures
            res.api == api,
            res.path_url@ == "/accounts"@,
    {
        Accounts { api, path_url: String::from_str("/accounts") }
    }

    fn endpoint(&self, suffix: &str) -> (res: String)
        ensures
            res@ == self.path_url@ + suffix@,
    {
        concat(self.path_url.as_str(), suffix)
    }

    /// Request that retrieves the encrypted operation key.
    pub fn get_operation_key_request(&self) -> (res: ApiRequest)
        ensures
            res.is_plain_get(self.path_url@ + "/operation-key"@),
    {
        ApiRequest::get(self.endpoint("/operation-key"), None)
    }

    /// Request that creates a new API key for the account.
    pub fn create_new_api_key_request(&self) -> (res: ApiRequest)
        ensures
            res.is_plain_get(self.path_url@ + "/new-api-key"@),
    {
        ApiRequest::get(self.endpoint("/new-api-key"), None)
    }

    /// Request that reads the current API key information.
    pub fn get_api_key_request(&self) -> (res: ApiRequest)
        ensures
            res.is_plain_get(self.path_url@ + "/api-key"@),
    {
        ApiRequest::get(self.endpoint("/api-key"), None)
    }

    /// Request that reads the spot account.
    pub fn get_spot_account_request(&self) -> (res: ApiRequest)
        ensures
            res.is_plain_get(self.path_url@ + "/spot-account"@),
    {
        ApiRequest::get(self.endpoint("/spot-account"), None)
    }

    /// Request that reads the balance of every asset.
    pub fn get_account_balance_request(&self) -> (res: ApiRequest)
        ensures
            res.is_plain_get(self.path_url@ + "/balance"@),
    {
        ApiRequest::get(self.endpoint("/balance"), None)
    }

    /// Request that reads the maximum deposit allowed.
    pub fn get_max_deposit_request(&self) -> (res: ApiRequest)
        ensures
            res.is_plain_get(self.path_url@ + "/max-deposit"@),
    {
        ApiRequest::get(self.endpoint("/max-deposit"), None)
    }

    /// Request that reads the deposit records.
    pub fn get_deposit_records_request(&self) -> (res: ApiRequest)
        ensures
            res.is_plain_get(self.path_url@ + "/deposit-records"@),
    {
        ApiRequest::get(self.endpoint("/deposit-records"), None)
    }

    /// Request that reads the withdrawal records.
    pub fn get_withdrawal_records_request(&self) -> (res: ApiRequest)
        ensures
            res.is_plain_get(self.path_url@ + "/withdrawal-records"@),
    {
        ApiRequest::get(self.endpoint("/withdrawal-records"), None)
    }

    /// Request that reads the transferal records.
    pub fn get_transferal_records_request(&self) -> (res: ApiRequest)
        ensures
            res.is_plain_get(self.path_url@ + "/transferal-records"@),
    {
        ApiRequest::get(self.endpoint("/transferal-records"), None)
    }

    /// Request that submits a signed deposit transaction.
    pub fn submit_deposit_transaction_request(&self, signed_tx: &str) -> (res: ApiRequest)
        ensures
            res.sends_signed_tx(HttpMethod::Post, self.path_url@ + "/deposit/submit"@, signed_tx@),
    {
        let body = RequestBody::SignedTx { signed_tx: String::from_str(signed_tx) };
        ApiRequest::with_body(HttpMethod::Post, self.endpoint("/deposit/submit"), body)
    }

    /// Request that submits a signed withdrawal transaction.
    pub fn submit_withdrawal_transaction_request(&self, signed_tx: &str) -> (res: ApiRequest)
        ensures
            res.sends_signed_tx(HttpMethod::Post, self.path_url@ + "/withdrawal/submit"@, signed_tx@),
    {
        let body = RequestBody::SignedTx { signed_tx: String::from_str(signed_tx) };
        ApiRequest::with_body(HttpMethod::Post, self.endpoint("/withdrawal/submit"), body)
    }

    /// Request that submits a signed transferal transaction.
    pub fn submit_transferal_transaction_request(&self, signed_tx: &str) -> (res: ApiRequest)
        ensures
            res.sends_signed_tx(HttpMethod::Post, self.path_url@ + "/transferal/submit"@, signed_tx@),
    {
        let body = RequestBody::SignedTx { signed_tx: String::from_str(signed_tx) };
        ApiRequest::with_body(HttpMethod::Post, self.endpoint("/transferal/submit"), body)
    }

    /// Request that submits a signed request-transferal transaction.
    pub fn submit_request_transferal_transaction_request(&self, signed_tx: &str) -> (res: ApiRequest)
        ensures
            res.sends_signed_tx(HttpMethod::Post, self.path_url@ + "/request-transferal/submit"@, signed_tx@),
    {
        let body = RequestBody::SignedTx { signed_tx: String::from_str(signed_tx) };
        ApiRequest::with_body(HttpMethod::Post, self.endpoint("/request-transferal/submit"), body)
    }

    /// Request that reads a page of open orders, optionally for one symbol. Pages hold 10 records and start at page 1 unless given.
    pub fn get_open_orders_request(&self, symbol: Option<String>, limit: Option<u32>, page: Option<u32>) -> (res: ApiRequest)
        ensures
            res.method == HttpMethod::Get,
            res.path@ == self.path_url@ + "/open-orders"@,
            res.body is None,
            res.query == Some(OrderQueryParams {
                symbol,
                limit: Some(limit.unwrap_or(DEFAULT_PAGE_LIMIT)),
                page: Some(page.unwrap_or(DEFAULT_PAGE)),
            }),
    {
        ApiRequest::get(self.endpoint("/open-orders"), Some(OrderQueryParams::paged(symbol, limit, page)))
    }

    /// Request that reads a page of the order history, optionally for one symbol. Pages hold 10 records and start at page 1 unless given.
    pub fn get_trade_orders_request(&self, symbol: Option<String>, limit: Option<u32>, page: Option<u32>) -> (res: ApiRequest)
        ensures
            res.method == HttpMethod::Get,
            res.path@ == self.path_url@ + "/trade-orders"@,
            res.body is None,
            res.query == Some(OrderQueryParams {
                symbol,
                limit: Some(limit.unwrap_or(DEFAULT_PAGE_LIMIT)),
                page: Some(page.unwrap_or(DEFAULT_PAGE)),
            }),
    {
        ApiRequest::get(self.endpoint("/trade-orders"), Some(OrderQueryParams::paged(symbol, limit, page)))
    }

    /// Request that reads a page of the account's trades, optionally for one symbol. Pages hold 10 records and start at page 1 unless given.
    pub fn get_account_trades_request(&self, symbol: Option<String>, limit: Option<u32>, page: Option<u32>) -> (res: ApiRequest)
        ensures
            res.method == HttpMethod::Get,
            res.path@ == self.path_url@ + "/trades"@,
            res.body is None,
            res.query == Some(OrderQueryParams {
                symbol,
                limit: Some(limit.unwrap_or(DEFAULT_PAGE_LIMIT)),
                page: Some(page.unwrap_or(DEFAULT_PAGE)),
            }),
    {
        ApiRequest::get(self.endpoint("/trades"), Some(OrderQueryParams::paged(symbol, limit, page)))
    }

    /// Request that creates a spot account protected by the given operation key.
    pub fn create_spot_account_request(&self, encrypted_operation_key: &str, operation_key_hash: &str) -> (res: ApiRequest)
        ensures
            res.method == HttpMethod::Post,
            res.path@ == self.path_url@ + "/spot-account"@,
            res.query is None,
            res.body matches Some(RequestBody::OperationKey { encrypted_operation_key: k, operation_key_hash: h })
                && k@ == encrypted_operation_key@ && h@ == operation_key_hash@,
    {
        let body = RequestBody::OperationKey {
            encrypted_operation_key: String::from_str(encrypted_operation_key),
            operation_key_hash: String::from_str(operation_key_hash),
        };
        ApiRequest::with_body(HttpMethod::Post, self.endpoint("/spot-account"), body)
    }

    /// Request that replaces the operation key of the spot account.
    pub fn update_spot_account_request(&self, encrypted_operation_key: &str, operation_key_hash: &str) -> (res: ApiRequest)
        ensures
            res.method == HttpMethod::Patch,
            res.path@ == self.path_url@ + "/spot-account"@,
            res.query is None,
            res.body matches Some(RequestBody::OperationKey { encrypted_operation_key: k, operation_key_hash: h })
                && k@ == encrypted_operation_key@ && h@ == operation_key_hash@,
    {
        let body = RequestBody::OperationKey {
            encrypted_operation_key: String::from_str(encrypted_operation_key),
            operation_key_hash: String::from_str(operation_key_hash),
        };
        ApiRequest::with_body(HttpMethod::Patch, self.endpoint("/spot-account"), body)
    }

    /// Request that builds a deposit transaction moving `deposit_amount` from
    /// `input_utxos` into the protocol.
    pub fn build_deposit_transaction_request(&self, deposit_amount: Vec<whisky::Asset>, input_utxos: Vec<whisky::UTxO>) -> (res: ApiRequest)
        ensures
            res.sends(HttpMethod::Post, self.path_url@ + "/deposit/build"@,
                RequestBody::Deposit { deposit_amount, input_utxos }),
    {
        let body = RequestBody::Deposit { deposit_amount, input_utxos };
        ApiRequest::with_body(HttpMethod::Post, self.endpoint("/deposit/build"), body)
    }

    /// Request that builds a withdrawal transaction.
    pub fn build_withdrawal_transaction_request(&self, request: BuildWithdrawalTransactionRequest) -> (res: ApiRequest)
        ensures
            res.sends(HttpMethod::Post, self.path_url@ + "/withdrawal/build"@, RequestBody::Withdrawal(request)),
    {
        ApiRequest::with_body(HttpMethod::Post, self.endpoint("/withdrawal/build"), RequestBody::Withdrawal(request))
    }

    /// Request that builds a transferal transaction.
    pub fn build_transferal_transaction_request(&self, request: BuildTransferalTransactionRequest) -> (res: ApiRequest)
        ensures
            res.sends(HttpMethod::Post, self.path_url@ + "/transferal/build"@, RequestBody::Transferal(request)),
    {
        ApiRequest::with_body(HttpMethod::Post, self.endpoint("/transferal/build"), RequestBody::Transferal(request))
    }

    /// Request that builds a request-transferal transaction of `transferal_amount` to
    /// `to_address`.
    pub fn build_request_transferal_transaction_request(&self, transferal_amount: Vec<whisky::Asset>, to_address: &str) -> (res: ApiRequest)
        ensures
            res.method == HttpMethod::Post,
            res.path@ == self.path_url@ + "/request-transferal/build"@,
            res.query is None,
            res.body matches Some(RequestBody::RequestTransferal { transferal_amount: a, to_address: t })
                && a == transferal_amount && t@ == to_address@,
    {
        let body = RequestBody::RequestTransferal { transferal_amount, to_address: String::from_str(to_address) };
        ApiRequest::with_body(HttpMethod::Post, self.endpoint("/request-transferal/build"), body)
    }

    /// Request that reads the transferal record of transaction `tx_hash`.
    pub fn get_transferal_record_by_tx_hash_request(&self, tx_hash: &str) -> (res: ApiRequest)
        ensures
            res.is_plain_get(self.path_url@ + "/transferal-records/"@ + tx_hash@),
    {
        let prefix = self.endpoint("/transferal-records/");
        ApiRequest::get(concat(prefix.as_str(), tx_hash), None)
    }

    /// Request that reads order `order_id`.
    pub fn get_order_request(&self, order_id: &str) -> (res: ApiRequest)
        ensures
            res.is_plain_get(self.path_url@ + "/order/"@ + order_id@),
    {
        let prefix = self.endpoint("/order/");
        ApiRequest::get(concat(prefix.as_str(), order_id), None)
    }
}

} // verus!
