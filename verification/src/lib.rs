//! Verified core of the DeltaDeFi SDK.
//!
//! The crate holds the data model of the DeltaDeFi API, the construction of every
//! request the client sends (method, path, query and body), the validation of order
//! parameters, the endpoints of each network stage, the classification of account
//! stream messages, the decisions of a stream connection on each frame, and the
//! bounded retries of streams that reconnect.
mod bindings;
pub mod client;
pub mod model;
pub mod requests;
pub mod responses;
pub mod text;

pub use client::accounts::{Accounts, OrderQueryParams};
pub use client::app::App;
pub use client::connection::{ConnectFailure, ConnectionResult, SocketAction, SocketEvent};
pub use client::market::Market;
pub use client::market_stream::MarketStream;
pub use client::order::OrderParamError;
pub use client::request::{ApiRequest, HttpMethod, RequestBody};
pub use client::stream::{
    AccountStream, ReconnectStep, Reconnector, StepKind, StreamError, StreamEvent,
};
pub use client::{Api, ClientError, DeltaDeFi, MasterKey, MasterKeyView, Stage};
pub use bindings::SigningWallet;
pub use model::{
    Asset, AssetBalance, DepositRecord, Interval, Order, OrderExecutionRecord,
    OrderExecutionRecordJSON, OrderExecutionRecordResponse, OrderExecutionRole,
    OrderRecordStatus, OrderResponse, OrderSide, OrderStatus, OrderType, PaginatedResponse,
    Symbol, TransactionStatus, TransferDirection, TransferStatus, TransferalRecord,
    TransferalType, WithdrawalRecord,
};
pub use requests::{
    BuildTransferalTransactionRequest, BuildWithdrawalTransactionRequest,
    GetAggregatedPriceRequest, OrderRecordParams, PlaceOrderPayload,
};
pub use responses::stream::{
    AccountBalanceMessage, DltaPointsData, DltaPointsMessage, OrderInfoMessage, StreamMessage,
    StreamMessageBase, StreamSubType, StreamType,
};
pub use responses::{accounts, order, stream};
