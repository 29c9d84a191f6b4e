//! Spot orders.
use crate::client::rest::{lemma_upper_case_word_is_method, KuCoinClient, SignedRequest};
use crate::types::spot::{
    BatchSpotContract, Side, SpotCancelFields, SpotContract, SpotOrderFields, SpotQuery, Stp,
    TimeInForce, TradeType,
};
use crate::utils::errors::KucoinResults;
use crate::utils::oid::{is_uuid_text, new_client_oid};
use vstd::prelude::*;

verus! {

/// The order that a builder starts from: type, symbol, side and client
/// order id are set, every other field is left to the exchange's default.
pub open spec fn blank_order(
    client_oid: Seq<char>,
    trade_type: TradeType,
    symbol: Seq<char>,
    side: Side,
) -> SpotOrderFields {
    SpotOrderFields {
        allow_max_time_window: None,
        cancel_after: None,
        client_oid: Some(client_oid),
        client_timestamp: None,
        funds: None,
        hidden: None,
        iceberg: None,
        post_only: None,
        price: None,
        remark: None,
        side: side,
        size: None,
        stp: None,
        symbol: symbol,
        tags: None,
        time_in_force: None,
        spot_contract_type: trade_type,
        visible_size: None,
    }
}

impl SpotContract {
    /// A new spot order with the given client order id.
    pub fn with_client_oid(
        client_oid: String,
        trade_type: TradeType,
        symbol: &str,
        side: Side,
    ) -> (request: Self)
        ensures
            request@ == blank_order(client_oid@, trade_type, symbol@, side),
    {
        SpotContract {
            allow_max_time_window: None,
            cancel_after: None,
            client_oid: Some(client_oid),
            client_timestamp: None,
            funds: None,
            hidden: None,
            iceberg: None,
            post_only: None,
            price: None,
            remark: None,
            side,
            size: None,
            stp: None,
            symbol: String::from_str(symbol),
            tags: None,
            time_in_force: None,
            spot_contract_type: trade_type,
            visible_size: None,
        }
    }

    /// Create a new spot order with a fresh random client order id.
    ///
    /// `trade_type` is market or limit; a limit order needs its price set.
    /// `symbol` is the trading pair, as in `BTC-USDT`.  Funds and size are
    /// left undefined and can be set with `set_funds` and `set_size`.
    pub fn new(trade_type: TradeType, symbol: &str, side: Side) -> (request: Self)
        ensures
            exists|client_oid: Seq<char>|
                is_uuid_text(client_oid) && request@ == #[trigger] blank_order(
                    client_oid,
                    trade_type,
                    symbol@,
                    side,
                ),
    {
        let client_oid = new_client_oid();
        let request = SpotContract::with_client_oid(client_oid, trade_type, symbol, side);
        assert(request@ == blank_order(client_oid@, trade_type, symbol@, side));
        request
    }

    /// Sets the quantity of the order, as its decimal text.  Usually required
    /// for limit orders.
    pub fn set_size(self, size: &str) -> (request: Self)
        ensures
            request@ == (SpotOrderFields { size: Some(size@), ..self@ }),
    {
        let mut request = self;
        request.size = Some(String::from_str(size));
        request
    }

    /// Sets the price of the order, as its decimal text.  Required for limit
    /// orders.
    pub fn set_price(self, price: &str) -> (request: Self)
        ensures
            request@ == (SpotOrderFields { price: Some(price@), ..self@ }),
    {
        let mut request = self;
        request.price = Some(String::from_str(price));
        request
    }

    /// Sets the funds (the amount in the quote currency) of the order, as
    /// their decimal text.  Often used for market buy orders, as in "buy 100
    /// USDT worth of BTC".
    pub fn set_funds(self, funds: &str) -> (request: Self)
        ensures
            request@ == (SpotOrderFields { funds: Some(funds@), ..self@ }),
    {
        let mut request = self;
        request.funds = Some(String::from_str(funds));
        request
    }

    /// Sets the time in force ("GTC", "IOC", "FOK" ...).
    pub fn set_time_in_force(self, time_in_force: TimeInForce) -> (request: Self)
        ensures
            request@ == (SpotOrderFields { time_in_force: Some(time_in_force), ..self@ }),
    {
        let mut request = self;
        request.time_in_force = Some(time_in_force);
        request
    }

    /// Sets the post-only flag.  A post-only order does not execute
    /// immediately against the market.
    pub fn set_post_only(self, post_only: bool) -> (request: Self)
        ensures
            request@ == (SpotOrderFields { post_only: Some(post_only), ..self@ }),
    {
        let mut request = self;
        request.post_only = Some(post_only);
        request
    }

    /// Sets the hidden flag.  A hidden order is not displayed in the order
    /// book.
    pub fn set_hidden(self, hidden: bool) -> (request: Self)
        ensures
            request@ == (SpotOrderFields { hidden: Some(hidden), ..self@ }),
    {
        let mut request = self;
        request.hidden = Some(hidden);
        request
    }

    /// Sets the iceberg flag.  Only a part of an iceberg order is visible.
    pub fn set_iceberg(self, iceberg: bool) -> (request: Self)
        ensures
            request@ == (SpotOrderFields { iceberg: Some(iceberg), ..self@ }),
    {
        let mut request = self;
        request.iceberg = Some(iceberg);
        request
    }

    /// Sets the visible size of an iceberg order, as its decimal text.
    pub fn set_visible_size(self, visible_size: &str) -> (request: Self)
        ensures
            request@ == (SpotOrderFields { visible_size: Some(visible_size@), ..self@ }),
    {
        let mut request = self;
        request.visible_size = Some(String::from_str(visible_size));
        request
    }

    /// Sets a remark for the order.
    pub fn set_remark(self, remark: &str) -> (request: Self)
        ensures
            request@ == (SpotOrderFields { remark: Some(remark@), ..self@ }),
    {
        let mut request = self;
        request.remark = Some(String::from_str(remark));
        request
    }

    /// Sets the self-trade prevention (STP) mode.
    pub fn set_stp(self, stp: Stp) -> (request: Self)
        ensures
            request@ == (SpotOrderFields { stp: Some(stp), ..self@ }),
    {
        let mut request = self;
        request.stp = Some(stp);
        request
    }

    /// Sets the timeout after which the order is cancelled.
    pub fn set_cancel_after(self, cancel_after: i64) -> (request: Self)
        ensures
            request@ == (SpotOrderFields { cancel_after: Some(cancel_after), ..self@ }),
    {
        let mut request = self;
        request.cancel_after = Some(cancel_after);
        request
    }

    /// The path that a spot order is posted to.
    pub fn endpoint() -> (path: String)
        ensures
            path@ == "/api/v1/hf/orders"@,
    {
        String::from_str("/api/v1/hf/orders")
    }
}

impl BatchSpotContract {
    /// An empty batch.
    pub fn new() -> (batch: Self)
        ensures
            batch@ == Seq::<SpotOrderFields>::empty(),
    {
        let batch = BatchSpotContract { order_list: Vec::new() };
        assert(batch@ =~= Seq::<SpotOrderFields>::empty());
        batch
    }

    /// Adds an order at the end of the batch.
    pub fn add_order(self, contract: SpotContract) -> (batch: Self)
        ensures
            batch@ == self@.push(contract@),
    {
        let mut batch = self;
        batch.order_list.push(contract);
        assert(batch@ =~= self@.push(contract@));
        batch
    }

    /// The path that a batch of spot orders is posted to.
    pub fn endpoint() -> (path: String)
        ensures
            path@ == "/api/v1/hf/orders/multi"@,
    {
        String::from_str("/api/v1/hf/orders/multi")
    }
}

/// The path that cancels part of an order: the order id in the path, the
/// symbol and the size to cancel as its query.
pub open spec fn cancel_endpoint(query: SpotCancelFields) -> Seq<char> {
    "/api/v1/hf/orders/cancel/"@ + query.order_id + "?symbol="@ + query.symbol + "&cancelSize="@
        + query.cancel_size
}

impl SpotQuery {
    /// The request that cancels `cancel_size`, given as its decimal text, of
    /// the order `order_id` on `symbol`.
    pub fn new(order_id: &str, cancel_size: &str, symbol: &str) -> (query: Self)
        ensures
            query@ == (SpotCancelFields {
                order_id: order_id@,
                cancel_size: cancel_size@,
                symbol: symbol@,
            }),
    {
        SpotQuery {
            order_id: String::from_str(order_id),
            cancel_size: String::from_str(cancel_size),
            symbol: String::from_str(symbol),
        }
    }

    /// The path of the cancellation.
    pub fn build_endpoint(&self) -> (path: String)
        ensures
            path@ == cancel_endpoint(self@),
    {
        String::from_str("/api/v1/hf/orders/cancel/").concat(self.order_id.as_str()).concat(
            "?symbol=",
        ).concat(self.symbol.as_str()).concat("&cancelSize=").concat(self.cancel_size.as_str())
    }
}

/// The spot trading endpoints of one client.
pub struct SpotHandler<'a> {
    /// The client whose credentials sign the requests.
    pub client: &'a KuCoinClient,
}

impl<'a> SpotHandler<'a> {
    /// The signed `POST` request that places a spot order; `payload` is the
    /// serialized `SpotContract`.
    pub fn send_order_request(&self, payload: &str) -> (request: KucoinResults<SignedRequest>)
        ensures
            self.client.signed_now(request, "POST"@, "/api/v1/hf/orders"@, payload@),
    {
        let endpoint = SpotContract::endpoint();
        proof {
            reveal_strlit("POST");
            lemma_upper_case_word_is_method("POST"@);
        }
        self.client.sign_request("POST", payload, endpoint.as_str())
    }

    /// The signed `POST` request that places a batch of spot orders;
    /// `payload` is the serialized `BatchSpotContract`.
    pub fn send_multi_orders_request(
        &self,
        payload: &str,
    ) -> (request: KucoinResults<SignedRequest>)
        ensures
            self.client.signed_now(request, "POST"@, "/api/v1/hf/orders/multi"@, payload@),
    {
        let endpoint = BatchSpotContract::endpoint();
        proof {
            reveal_strlit("POST");
            lemma_upper_case_word_is_method("POST"@);
        }
        self.client.sign_request("POST", payload, endpoint.as_str())
    }

    /// The signed `DELETE` request that cancels part of an order.  It has no
    /// body.
    pub fn cancel_partial_order_request(
        &self,
        contract: &SpotQuery,
    ) -> (request: KucoinResults<SignedRequest>)
        ensures
            self.client.signed_now(request, "DELETE"@, cancel_endpoint(contract@), ""@),
    {
        let endpoint = contract.build_endpoint();
        proof {
            reveal_strlit("DELETE");
            lemma_upper_case_word_is_method("DELETE"@);
        }
        self.client.sign_request("DELETE", "", endpoint.as_str())
    }
}

} // verus!
