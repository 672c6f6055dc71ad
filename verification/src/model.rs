//! Data model of the DeltaDeFi API: trading symbols, intervals, order and transfer
//! states, and the records the API returns.
use vstd::prelude::*;
use vstd::string::StringExecFns;

verus! {

/// Trading symbols supported by the DeltaDeFi platform.
#[derive(Debug, Clone, Copy, PartialEq, Eq, Structural)]
pub enum Symbol {
    /// ADA to USDM trading pair.
    ADAUSDM,
    /// HOSKY to USDM trading pair.
    HOSKYUSDM,
    /// NIGHT to USDM trading pair.
    NIGHTUSDM,
    /// IAG to USDM trading pair.
    IAGUSDM,
    /// SNEK to USDM trading pair.
    SNEKUSDM,
}

/// The name of a symbol on the wire.
pub open spec fn symbol_name(symbol: Symbol) -> Seq<char> {
    match symbol {
        Symbol::ADAUSDM => "ADAUSDM"@,
        Symbol::HOSKYUSDM => "HOSKYUSDM"@,
        Symbol::NIGHTUSDM => "NIGHTUSDM"@,
        Symbol::IAGUSDM => "IAGUSDM"@,
        Symbol::SNEKUSDM => "SNEKUSDM"@,
    }
}

/// Different trading pairs have different names on the wire, and no name is empty:
/// they already differ in their first character.
pub proof fn lemma_symbol_names_distinct(first: Symbol, second: Symbol)
    requires
        first != second,
    ensures
        symbol_name(first).len() > 0,
        symbol_name(second).len() > 0,
        symbol_name(first)[0] != symbol_name(second)[0],
{
    reveal_strlit("ADAUSDM");
    reveal_strlit("HOSKYUSDM");
    reveal_strlit("NIGHTUSDM");
    reveal_strlit("IAGUSDM");
    reveal_strlit("SNEKUSDM");
}

/// Different intervals have different names on the wire.
pub proof fn lemma_interval_names_distinct(first: Interval, second: Interval)
    requires
        first != second,
    ensures
        interval_name(first) != interval_name(second),
{
    reveal_strlit("5m");
    reveal_strlit("15m");
    reveal_strlit("30m");
    reveal_strlit("1h");
    reveal_strlit("1d");
    assert(interval_name(first).len() != interval_name(second).len()
        || exists|i: int| 0 <= i < interval_name(first).len() && #[trigger] interval_name(first)[i] != interval_name(second)[i]) by {
        assert(interval_name(first)[0] != interval_name(second)[0] || interval_name(first)[1] != interval_name(second)[1]);
    }
}

impl Symbol {
    /// The name of the trading pair, as the API spells it.
    pub fn as_str(&self) -> (res: &'static str)
        ensures
            res@ == symbol_name(*self),
    {
        match self {
            Symbol::ADAUSDM => "ADAUSDM",
            Symbol::HOSKYUSDM => "HOSKYUSDM",
            Symbol::NIGHTUSDM => "NIGHTUSDM",
            Symbol::IAGUSDM => "IAGUSDM",
            Symbol::SNEKUSDM => "SNEKUSDM",
        }
    }
}

/// Time intervals for aggregated market data.
#[derive(Debug, Clone, Copy, PartialEq, Eq, Structural)]
pub enum Interval {
    /// 5-minute intervals.
    Interval5m,
    /// 15-minute intervals.
    Interval15m,
    /// 30-minute intervals.
    Interval30m,
    /// 1-hour intervals.
    Interval1h,
    /// 1-day intervals.
    Interval1d,
}

/// The name of an interval on the wire.
pub open spec fn interval_name(interval: Interval) -> Seq<char> {
    match interval {
        Interval::Interval5m => "5m"@,
        Interval::Interval15m => "15m"@,
        Interval::Interval30m => "30m"@,
        Interval::Interval1h => "1h"@,
        Interval::Interval1d => "1d"@,
    }
}

impl Interval {
    /// The name of the interval, as the API spells it.
    pub fn as_str(&self) -> (res: &'static str)
        ensures
            res@ == interval_name(*self),
    {
        match self {
            Interval::Interval5m => "5m",
            Interval::Interval15m => "15m",
            Interval::Interval30m => "30m",
            Interval::Interval1h => "1h",
            Interval::Interval1d => "1d",
        }
    }
}

/// Order execution status in the DeltaDeFi system.
#[derive(Debug, Clone, Copy, PartialEq, Eq, Structural)]
pub enum OrderStatus {
    /// Order transaction is being built.
    Building,
    /// Order is being processed by the system.
    Processing,
    /// Order is active and waiting to be matched.
    Open,
    /// Order has been cancelled.
    Cancelled,
    /// Order execution failed due to an error.
    Failed,
    /// Order has been closed (terminal state, fully executed).
    Closed,
}

/// Order side indicating buy or sell direction.
#[derive(Debug, Clone, Copy, PartialEq, Eq, Structural)]
pub enum OrderSide {
    /// Purchase order: buying the base asset.
    Buy,
    /// Sell order: selling the base asset.
    Sell,
}

/// Order execution type determining price and execution behavior.
#[derive(Debug, Clone, Copy, PartialEq, Eq, Structural)]
pub enum OrderType {
    /// Market order: executes immediately at the current market price.
    Market,
    /// Limit order: executes only at the specified price or better.
    Limit,
}

/// Transaction processing status in the DeltaDeFi system.
#[derive(Debug, Clone, Copy, PartialEq, Eq, Structural)]
pub enum TransactionStatus {
    /// Transaction is being constructed.
    Building,
    /// Transaction is held pending order matching.
    HeldForOrder,
    /// Transaction has been submitted to the blockchain.
    Submitted,
    /// Transaction submission to the blockchain failed.
    SubmissionFailed,
    /// Transaction has been confirmed on the blockchain.
    Confirmed,
}

/// Transfer status for transferal records.
#[derive(Debug, Clone, Copy, PartialEq, Eq, Structural)]
pub enum TransferStatus {
    /// Transfer is pending confirmation.
    Pending,
    /// Transfer has been confirmed on the blockchain.
    Confirmed,
}

/// Direction of a transfer.
#[derive(Debug, Clone, Copy, PartialEq, Eq, Structural)]
pub enum TransferDirection {
    /// Incoming transfer (receiving assets).
    Incoming,
    /// Outgoing transfer (sending assets).
    Outgoing,
}

/// Type of transferal operation.
#[derive(Debug, Clone, Copy, PartialEq, Eq, Structural)]
pub enum TransferalType {
    /// Direct transfer.
    Direct,
    /// Request-based transfer.
    Request,
}

/// Role of a participant in an order execution.
#[derive(Debug, Clone, Copy, PartialEq, Eq, Structural)]
pub enum OrderExecutionRole {
    /// Liquidity provider: the order was in the book first.
    Maker,
    /// Liquidity taker: the order matched against an existing book order.
    Taker,
}

/// Filter for querying different types of order records.
#[derive(Debug, Clone, Copy, PartialEq, Eq, Structural)]
pub enum OrderRecordStatus {
    /// Currently active/open orders.
    OpenOrder,
    /// Historical order data (completed/cancelled).
    OrderHistory,
    /// Trading execution history.
    TradingHistory,
}

/// Order execution record containing details of a trade execution.
#[derive(Debug, Clone, PartialEq, Eq)]
pub struct OrderExecutionRecord {
    /// Unique execution identifier.
    pub id: String,
    /// ID of the order that was executed.
    pub order_id: String,
    /// Account ID of the order owner.
    pub account_id: String,
    /// Price at which the execution occurred.
    pub execution_price: String,
    /// Base quantity filled in this execution.
    pub filled_base_qty: String,
    /// Quote quantity filled in this execution.
    pub filled_quote_qty: String,
    /// Unit of the commission charged (e.g., "ADA", "USDM").
    pub commission_unit: String,
    /// Commission amount charged for this execution.
    pub commission: String,
    /// Role in this execution (maker or taker).
    pub role: OrderExecutionRole,
    /// Order ID of the counterparty in this execution.
    pub counter_party_order_id: String,
    /// Timestamp when this execution occurred (ISO 8601 format).
    pub created_at: String,
}

/// An order as the API returns it.
#[derive(Debug, Clone, PartialEq, Eq)]
pub struct Order {
    /// Unique order identifier.
    pub id: String,
    /// Account ID that owns this order.
    pub account_id: String,
    /// Active order UTXO ID (if applicable).
    pub active_order_utxo_id: Option<String>,
    /// Current order status.
    pub status: OrderStatus,
    /// Trading pair symbol.
    pub symbol: String,
    /// Base quantity for the order.
    pub base_qty: String,
    /// Quote quantity for the order.
    pub quote_qty: String,
    /// Order side (buy/sell).
    pub side: OrderSide,
    /// Order price.
    pub price: String,
    /// Order type (market/limit); `type` on the wire.
    pub order_type: OrderType,
    /// Slippage in basis points (optional).
    pub slippage_bp: Option<u64>,
    /// Market order limit price (optional).
    pub market_order_limit_price: Option<String>,
    /// Locked base quantity.
    pub locked_base_qty: String,
    /// Locked quote quantity.
    pub locked_quote_qty: String,
    /// Executed base quantity.
    pub executed_base_qty: String,
    /// Executed quote quantity.
    pub executed_quote_qty: String,
    /// Open order base quantity in the order book.
    pub ob_open_order_base_qty: String,
    /// Commission unit.
    pub commission_unit: String,
    /// Total commission charged.
    pub commission: String,
    /// Commission rate in basis points.
    pub commission_rate_bp: u64,
    /// Executed price.
    pub executed_price: String,
    /// Order creation timestamp (ISO 8601 format).
    pub created_at: String,
    /// Order last update timestamp (ISO 8601 format).
    pub updated_at: String,
    /// Order execution records (fills).
    pub order_execution_records: Option<Vec<OrderExecutionRecord>>,
}

/// Type alias for `Order`, matching the API's naming.
pub type OrderResponse = Order;

/// Type alias for `OrderExecutionRecord`, matching the API's naming.
pub type OrderExecutionRecordResponse = OrderExecutionRecord;

/// An order execution record in the legacy JSON format (superseded by
/// `OrderExecutionRecord`).
#[derive(Debug, Clone, PartialEq, Eq)]
pub struct OrderExecutionRecordJSON {
    pub id: String,
    pub order_id: String,
    pub execution_price: String,
    pub filled_amount: String,
    pub fee_unit: String,
    pub fee_amount: String,
    pub role: OrderExecutionRole,
    pub counter_party_order_id: String,
    pub create_time: u64,
}

/// A deposit record.
#[derive(Debug, Clone, PartialEq, Eq)]
pub struct DepositRecord {
    pub created_at: String,
    pub status: TransactionStatus,
    pub assets: Vec<Asset>,
    pub tx_hash: String,
}

/// A withdrawal record.
#[derive(Debug, Clone, PartialEq, Eq)]
pub struct WithdrawalRecord {
    pub created_at: String,
    pub status: TransactionStatus,
    pub assets: Vec<Asset>,
}

/// A transferal record.
#[derive(Debug, Clone, PartialEq, Eq)]
pub struct TransferalRecord {
    pub created_at: String,
    pub status: TransferStatus,
    pub assets: Vec<Asset>,
    pub transferal_type: TransferalType,
    pub tx_hash: String,
    pub direction: TransferDirection,
}

/// An asset balance.
#[derive(Debug, Clone, PartialEq, Eq)]
pub struct AssetBalance {
    pub asset: String,
    pub asset_unit: String,
    /// Free balance as a decimal string, for precision.
    pub free: String,
    /// Locked balance as a decimal string, for precision.
    pub locked: String,
}

/// An asset with a quantity.
#[derive(Debug, Clone, PartialEq, Eq)]
pub struct Asset {
    pub asset: String,
    pub asset_unit: String,
    /// Quantity as a decimal string, for precision.
    pub qty: String,
}

/// Paginated list of items as the API returns it.
#[derive(Debug, Clone, PartialEq, Eq)]
pub struct PaginatedResponse<T> {
    /// The items of the current page.
    pub data: Vec<T>,
    /// Total count of items across all pages.
    pub total_count: i64,
    /// Total number of pages.
    pub total_page: i64,
}

} // verus!
