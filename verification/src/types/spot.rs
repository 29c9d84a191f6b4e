//! Spot trading: orders, cancellations and their results.
use vstd::prelude::*;

verus! {

/// A batch of spot orders, placed with one request.
#[derive(Debug, Clone)]
pub struct BatchSpotContract {
    /// Order List
    pub order_list: Vec<SpotOrderRequest>,
}

impl View for BatchSpotContract {
    type V = Seq<SpotOrderFields>;

    open spec fn view(&self) -> Seq<SpotOrderFields> {
        Seq::new(self.order_list@.len(), |i: int| self.order_list@[i]@)
    }
}

/// One spot order.
#[derive(Debug, Clone)]
pub struct SpotOrderRequest {
    /// The order fails after a timeout of this many milliseconds: if
    /// clientTimestamp + allowMaxTimeWindow is before the time the gateway
    /// received the message, the order fails.
    pub allow_max_time_window: Option<i64>,
    /// Cancel after n seconds; the order timing strategy is GTT. -1, the
    /// default, means the order is not cancelled automatically.
    pub cancel_after: Option<i64>,
    /// Client order id, a unique id created by the user (a UUID is
    /// recommended).  It may hold only digits, letters, underscores and
    /// hyphens, at most 40 characters, and is returned with the order
    /// information.  It differs from the order id that the exchange creates,
    /// which is the one to use for later updates of the order.
    pub client_oid: Option<String>,
    /// Equal to KC-API-TIMESTAMP; needs to be defined if allowMaxTimeWindow
    /// is specified.
    pub client_timestamp: Option<i64>,
    /// For a market order, one of size and funds is given.  Funds are in the
    /// priced asset of the pair, a multiple of its quoteIncrement between
    /// quoteMinSize and quoteMaxSize.
    pub funds: Option<String>,
    /// Hidden order or not (not shown in the order book)
    pub hidden: Option<bool>,
    /// Whether only the visible portion of the order is shown (iceberg order)
    pub iceberg: Option<bool>,
    /// Passive order label; disabled when the order timing strategy is IOC or
    /// FOK
    pub post_only: Option<bool>,
    /// Price of the order.  For a limit order it must be a multiple of the
    /// priceIncrement of the pair.
    pub price: Option<String>,
    /// Order placement remarks, at most 20 ASCII characters
    pub remark: Option<String>,
    /// Whether the order is to buy or to sell
    pub side: Side,
    /// Quantity of the order.  For a limit order, the amount of the traded
    /// asset, a positive multiple of baseIncrement between baseMinSize and
    /// baseMaxSize.  For a market order, one of size and funds is given.
    pub size: Option<String>,
    /// Self trade prevention: CN, CO, CB or DC
    pub stp: Option<Stp>,
    /// symbol
    pub symbol: String,
    /// Order tag, at most 20 ASCII characters
    pub tags: Option<String>,
    /// How long the order stays active before it is executed or expires.
    /// Not supported for market orders.  Default is GTC.
    pub time_in_force: Option<TimeInForce>,
    /// Whether the order is a limit order or a market order.
    pub spot_contract_type: TradeType,
    /// Maximum visible quantity in iceberg orders
    pub visible_size: Option<String>,
}

/// What a spot order holds, with texts as sequences.
pub struct SpotOrderFields {
    pub allow_max_time_window: Option<i64>,
    pub cancel_after: Option<i64>,
    pub client_oid: Option<Seq<char>>,
    pub client_timestamp: Option<i64>,
    pub funds: Option<Seq<char>>,
    pub hidden: Option<bool>,
    pub iceberg: Option<bool>,
    pub post_only: Option<bool>,
    pub price: Option<Seq<char>>,
    pub remark: Option<Seq<char>>,
    pub side: Side,
    pub size: Option<Seq<char>>,
    pub stp: Option<Stp>,
    pub symbol: Seq<char>,
    pub tags: Option<Seq<char>>,
    pub time_in_force: Option<TimeInForce>,
    pub spot_contract_type: TradeType,
    pub visible_size: Option<Seq<char>>,
}

impl View for SpotOrderRequest {
    type V = SpotOrderFields;

    open spec fn view(&self) -> SpotOrderFields {
        SpotOrderFields {
            allow_max_time_window: self.allow_max_time_window,
            cancel_after: self.cancel_after,
            client_oid: self.client_oid.deep_view(),
            client_timestamp: self.client_timestamp,
            funds: self.funds.deep_view(),
            hidden: self.hidden,
            iceberg: self.iceberg,
            post_only: self.post_only,
            price: self.price.deep_view(),
            remark: self.remark.deep_view(),
            side: self.side,
            size: self.size.deep_view(),
            stp: self.stp,
            symbol: self.symbol@,
            tags: self.tags.deep_view(),
            time_in_force: self.time_in_force,
            spot_contract_type: self.spot_contract_type,
            visible_size: self.visible_size.deep_view(),
        }
    }
}

/// A spot order under the name its builder goes by.
pub type SpotContract = SpotOrderRequest;

/// Whether the order is to buy or to sell
#[derive(Debug, Clone, Copy, PartialEq, Eq, Structural)]
pub enum Side {
    Buy,
    Sell,
}

/// Whether the order is a limit order or a market order.
///
/// A limit order names a price and a size; it is matched at that price or
/// better and otherwise stays in the order book until it is matched or
/// cancelled.  A market order names a quantity only, is filled immediately
/// at the market price and never enters the order book.
#[derive(Debug, Clone, Copy, PartialEq, Eq, Structural)]
pub enum TradeType {
    Limit,
    Market,
}

/// Self trade prevention: one of the four strategies CN, CO, CB and DC.
#[derive(Debug, Clone, Copy, PartialEq, Eq, Structural)]
pub enum Stp {
    Cb,
    Cn,
    Co,
    Dc,
}

/// How long an order stays active before it is executed or expires.
/// Market orders do not support it.  Order fills include self-fills.
/// Default is `GTC`.
#[derive(Debug, Clone, Copy, PartialEq, Eq, Structural)]
pub enum TimeInForce {
    Fok,
    Gtc,
    Gtt,
    Ioc,
}

/// Cancels part of a spot order.
#[derive(Debug, Clone)]
pub struct SpotCancelRequest {
    /// The unique order id generated by the trading system
    pub order_id: String,
    /// The size to cancel
    pub cancel_size: String,
    /// symbol
    pub symbol: String,
}

/// What a partial cancellation holds, with texts as sequences.
pub struct SpotCancelFields {
    pub order_id: Seq<char>,
    pub cancel_size: Seq<char>,
    pub symbol: Seq<char>,
}

impl View for SpotCancelRequest {
    type V = SpotCancelFields;

    open spec fn view(&self) -> SpotCancelFields {
        SpotCancelFields {
            order_id: self.order_id@,
            cancel_size: self.cancel_size@,
            symbol: self.symbol@,
        }
    }
}

/// A partial cancellation under the name its builder goes by.
pub type SpotQuery = SpotCancelRequest;

#[derive(Debug, Clone)]
pub struct SpotCanceledData {
    /// The size canceled
    pub cancel_size: String,
    /// order id
    pub order_id: String,
}

#[derive(Debug, Clone)]
pub struct BatchOrderResult {
    pub code: String,
    pub data: Vec<SpotOrderResult>,
}

#[derive(Debug, Clone)]
pub struct SpotData {
    /// The user self-defined order id.
    pub client_oid: String,
    /// The unique order id generated by the trading system, which can be used
    /// later for further actions such as canceling the order.
    pub order_id: String,
}

#[derive(Debug, Clone)]
pub struct SpotOrderResult {
    /// The user self-defined order ID.
    pub client_oid: Option<String>,
    /// Error message
    pub fail_msg: Option<String>,
    /// The unique order ID generated by the trading system, which can be used
    /// later for further actions such as canceling the order.
    pub order_id: Option<String>,
    /// Add order success/failure
    pub success: bool,
}

} // verus!
