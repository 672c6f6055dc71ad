//! Messages of the account stream: balance updates, order updates and DLTA points.
use vstd::prelude::*;

use crate::model::{AssetBalance, Order};

verus! {

/// Stream message type identifier (`Account` on the wire).
#[derive(Debug, Clone, Copy, PartialEq, Eq, Structural)]
pub enum StreamType {
    /// Account-related stream messages.
    Account,
}

/// Stream message sub-type identifier (`balance`, `order_info`, `dlta_points` on the
/// wire).
#[derive(Debug, Clone, Copy, PartialEq, Eq, Structural)]
pub enum StreamSubType {
    /// Balance update message.
    Balance,
    /// Order info update message.
    OrderInfo,
    /// DLTA points update message.
    DltaPoints,
}

/// The type information every account stream message carries.
#[derive(Debug, Clone, PartialEq, Eq)]
pub struct StreamMessageBase {
    /// The type of the message (`type` on the wire).
    pub msg_type: StreamType,
    /// The sub-type of the message.
    pub sub_type: StreamSubType,
}

/// Account balance update, sent when balances change through trades, deposits,
/// withdrawals or other operations.
#[derive(Debug, Clone, PartialEq, Eq)]
pub struct AccountBalanceMessage {
    pub msg_type: StreamType,
    pub sub_type: StreamSubType,
    /// Updated balances.
    pub balance: Vec<AssetBalance>,
}

/// Order update, sent when an order changes status.
#[derive(Debug, Clone, PartialEq, Eq)]
pub struct OrderInfoMessage {
    pub msg_type: StreamType,
    pub sub_type: StreamSubType,
    /// Updated order.
    pub order: Order,
}

/// DLTA points data.
#[derive(Debug, Clone, PartialEq, Eq)]
pub struct DltaPointsData {
    /// Change in points (positive or negative).
    pub delta: String,
    /// New total points after the change.
    pub new_total: String,
    /// Current season points.
    pub season_points: String,
    /// Source of the change (e.g., "trade", "referral").
    pub source_type: String,
    /// Optional reference to the source (e.g., an order ID).
    pub source_ref: Option<String>,
    /// Current league tier.
    pub league: String,
}

/// DLTA points update, sent when the points balance changes.
#[derive(Debug, Clone, PartialEq, Eq)]
pub struct DltaPointsMessage {
    pub msg_type: StreamType,
    pub sub_type: StreamSubType,
    /// Points update data.
    pub dlta_points: DltaPointsData,
}

/// A message of the account stream.
#[derive(Debug, Clone, PartialEq, Eq)]
pub enum StreamMessage {
    /// Account balance update.
    Balance(AccountBalanceMessage),
    /// Order information update.
    OrderInfo(OrderInfoMessage),
    /// DLTA points update.
    DltaPoints(DltaPointsMessage),
    /// Unknown or unparseable message, holding the raw JSON text.
    Unknown(String),
}

/// The message that a stream text yields, given the decodings of the text as a message
/// base and as each kind of message: the kind the sub-type names, when the text also
/// decodes as that kind, and otherwise the raw text.
pub open spec fn decoded_message(
    json: String,
    base: Option<StreamMessageBase>,
    balance: Option<AccountBalanceMessage>,
    order_info: Option<OrderInfoMessage>,
    dlta_points: Option<DltaPointsMessage>,
) -> StreamMessage {
    match base {
        None => StreamMessage::Unknown(json),
        Some(base) => match base.sub_type {
            StreamSubType::Balance => match balance {
                Some(msg) => StreamMessage::Balance(msg),
                None => StreamMessage::Unknown(json),
            },
            StreamSubType::OrderInfo => match order_info {
                Some(msg) => StreamMessage::OrderInfo(msg),
                None => StreamMessage::Unknown(json),
            },
            StreamSubType::DltaPoints => match dlta_points {
                Some(msg) => StreamMessage::DltaPoints(msg),
                None => StreamMessage::Unknown(json),
            },
        },
    }
}

/// The text does not decode as a message base, or it does not decode as the kind of
/// message its sub-type names (given whether it decodes as each kind).
pub open spec fn named_decoding_failed(
    base: Option<StreamMessageBase>,
    balance_decoded: bool,
    order_info_decoded: bool,
    dlta_points_decoded: bool,
) -> bool {
    ||| base is None
    ||| (base matches Some(b) && b.sub_type == StreamSubType::Balance && !balance_decoded)
    ||| (base matches Some(b) && b.sub_type == StreamSubType::OrderInfo && !order_info_decoded)
    ||| (base matches Some(b) && b.sub_type == StreamSubType::DltaPoints && !dlta_points_decoded)
}

/// A message that decodes as the kind its sub-type names is returned exactly as it
/// decoded, whatever it holds (whichever order side, however many balances): a
/// message of the named kind is never replaced by the raw text; the raw text comes
/// back only when the base or the named kind fails to decode, and whatever the other
/// kinds decode to plays no part.
pub proof fn lemma_decoded_kind_returned(
    json: String,
    base: Option<StreamMessageBase>,
    balance: Option<AccountBalanceMessage>,
    order_info: Option<OrderInfoMessage>,
    dlta_points: Option<DltaPointsMessage>,
    other_balance: Option<AccountBalanceMessage>,
    other_order_info: Option<OrderInfoMessage>,
    other_dlta_points: Option<DltaPointsMessage>,
)
    ensures
        ({
            let msg = decoded_message(json, base, balance, order_info, dlta_points);
            &&& (base matches Some(b) && b.sub_type == StreamSubType::Balance && balance is Some)
                ==> msg == StreamMessage::Balance(balance->0)
            &&& (base matches Some(b) && b.sub_type == StreamSubType::OrderInfo && order_info is Some)
                ==> msg == StreamMessage::OrderInfo(order_info->0)
            &&& (base matches Some(b) && b.sub_type == StreamSubType::DltaPoints && dlta_points is Some)
                ==> msg == StreamMessage::DltaPoints(dlta_points->0)
            &&& (msg is Unknown <==> named_decoding_failed(base, balance is Some, order_info is Some, dlta_points is Some))
            &&& (base matches Some(b) && b.sub_type == StreamSubType::Balance)
                ==> msg == decoded_message(json, base, balance, other_order_info, other_dlta_points)
            &&& (base matches Some(b) && b.sub_type == StreamSubType::OrderInfo)
                ==> msg == decoded_message(json, base, other_balance, order_info, other_dlta_points)
            &&& (base matches Some(b) && b.sub_type == StreamSubType::DltaPoints)
                ==> msg == decoded_message(json, base, other_balance, other_order_info, dlta_points)
        }),
{
}

impl StreamMessage {
    /// The message of stream text `json`, from the decodings of `json` as a message
    /// base (for its sub-type) and as each kind of message (`None` where decoding
    /// failed): the kind named by the sub-type if that decoding succeeded, otherwise
    /// `Unknown` with the raw text.
    pub fn from_decoded(
        json: String,
        base: Option<StreamMessageBase>,
        balance: Option<AccountBalanceMessage>,
        order_info: Option<OrderInfoMessage>,
        dlta_points: Option<DltaPointsMessage>,
    ) -> (res: Self)
        ensures
            res == decoded_message(json, base, balance, order_info, dlta_points),
            (base matches Some(b) && b.sub_type == StreamSubType::Balance && balance is Some)
                ==> res == StreamMessage::Balance(balance->0),
            (base matches Some(b) && b.sub_type == StreamSubType::OrderInfo && order_info is Some)
                ==> res == StreamMessage::OrderInfo(order_info->0),
            (base matches Some(b) && b.sub_type == StreamSubType::DltaPoints && dlta_points is Some)
                ==> res == StreamMessage::DltaPoints(dlta_points->0),
            res is Unknown ==> res == StreamMessage::Unknown(json),
            res is Unknown <==> named_decoding_failed(base, balance is Some, order_info is Some, dlta_points is Some),
    {
        match base {
            None => StreamMessage::Unknown(json),
            Some(base) => match base.sub_type {
                StreamSubType::Balance => match balance {
                    Some(msg) => StreamMessage::Balance(msg),
                    None => StreamMessage::Unknown(json),
                },
                StreamSubType::OrderInfo => match order_info {
                    Some(msg) => StreamMessage::OrderInfo(msg),
                    None => StreamMessage::Unknown(json),
                },
                StreamSubType::DltaPoints => match dlta_points {
                    Some(msg) => StreamMessage::DltaPoints(msg),
                    None => StreamMessage::Unknown(json),
                },
            },
        }
    }

    /// Whether this is a balance update.
    pub fn is_balance(&self) -> (res: bool)
        ensures
            res == (*self is Balance),
    {
        match self {
            StreamMessage::Balance(_) => true,
            _ => false,
        }
    }

    /// Whether this is an order update.
    pub fn is_order_info(&self) -> (res: bool)
        ensures
            res == (*self is OrderInfo),
    {
        match self {
            StreamMessage::OrderInfo(_) => true,
            _ => false,
        }
    }

    /// Whether this is a DLTA points update.
    pub fn is_dlta_points(&self) -> (res: bool)
        ensures
            res == (*self is DltaPoints),
    {
        match self {
            StreamMessage::DltaPoints(_) => true,
            _ => false,
        }
    }

    /// Whether this is an unknown message.
    pub fn is_unknown(&self) -> (res: bool)
        ensures
            res == (*self is Unknown),
    {
        match self {
            StreamMessage::Unknown(_) => true,
            _ => false,
        }
    }

    /// The balance update, if this is one.
    pub fn as_balance(&self) -> (res: Option<&AccountBalanceMessage>)
        ensures
            match *self {
                StreamMessage::Balance(msg) => res == Some(&msg),
                _ => res is None,
            },
    {
        match self {
            StreamMessage::Balance(msg) => Some(msg),
            _ => None,
        }
    }

    /// The order update, if this is one.
    pub fn as_order_info(&self) -> (res: Option<&OrderInfoMessage>)
        ensures
            match *self {
                StreamMessage::OrderInfo(msg) => res == Some(&msg),
                _ => res is None,
            },
    {
        match self {
            StreamMessage::OrderInfo(msg) => Some(msg),
            _ => None,
        }
    }

    /// The DLTA points update, if this is one.
    pub fn as_dlta_points(&self) -> (res: Option<&DltaPointsMessage>)
        ensures
            match *self {
                StreamMessage::DltaPoints(msg) => res == Some(&msg),
                _ => res is None,
            },
    {
        match self {
            StreamMessage::DltaPoints(msg) => Some(msg),
            _ => None,
        }
    }
}

/// Exactly one of the kind tests holds of every message, and each accessor yields a
/// value exactly when its kind test holds.
pub proof fn lemma_message_kind_exclusive(msg: StreamMessage)
    ensures
        (msg is Balance) as int + (msg is OrderInfo) as int + (msg is DltaPoints) as int + (msg is Unknown) as int == 1,
{
}

/// A text that does not decode as a message base, or whose sub-type's decoding fails,
/// is kept verbatim as an unknown message; a message of the named kind is never
/// replaced by a message of another kind.
pub proof fn lemma_decoding_falls_back_to_raw(
    json: String,
    base: Option<StreamMessageBase>,
    balance: Option<AccountBalanceMessage>,
    order_info: Option<OrderInfoMessage>,
    dlta_points: Option<DltaPointsMessage>,
)
    ensures
        ({
            let msg = decoded_message(json, base, balance, order_info, dlta_points);
            &&& msg is Unknown ==> msg == StreamMessage::Unknown(json)
            &&& base is None ==> msg == StreamMessage::Unknown(json)
            &&& msg is Balance ==> (base matches Some(b) && b.sub_type == StreamSubType::Balance)
            &&& msg is OrderInfo ==> (base matches Some(b) && b.sub_type == StreamSubType::OrderInfo)
            &&& msg is DltaPoints ==> (base matches Some(b) && b.sub_type == StreamSubType::DltaPoints)
        }),
{
}

/// When the decodings all come from one text, they agree on its sub-type: every
/// message decoded from it carries the sub-type that its base decoding read. Then a
/// text whose base names a sub-type becomes either a message of that kind carrying that
/// sub-type, or the raw text as an unknown message.
pub proof fn lemma_classified_sub_type(
    json: String,
    base: Option<StreamMessageBase>,
    balance: Option<AccountBalanceMessage>,
    order_info: Option<OrderInfoMessage>,
    dlta_points: Option<DltaPointsMessage>,
)
    requires
        balance matches Some(m) ==> (base matches Some(b) && m.sub_type == b.sub_type),
        order_info matches Some(m) ==> (base matches Some(b) && m.sub_type == b.sub_type),
        dlta_points matches Some(m) ==> (base matches Some(b) && m.sub_type == b.sub_type),
    ensures
        ({
            let msg = decoded_message(json, base, balance, order_info, dlta_points);
            base matches Some(b) ==> match b.sub_type {
                StreamSubType::Balance => (msg matches StreamMessage::Balance(m)
                    && m.sub_type == StreamSubType::Balance) || msg == StreamMessage::Unknown(json),
                StreamSubType::OrderInfo => (msg matches StreamMessage::OrderInfo(m)
                    && m.sub_type == StreamSubType::OrderInfo) || msg == StreamMessage::Unknown(json),
                StreamSubType::DltaPoints => (msg matches StreamMessage::DltaPoints(m)
                    && m.sub_type == StreamSubType::DltaPoints) || msg == StreamMessage::Unknown(json),
            }
        }),
{
}

} // verus!
