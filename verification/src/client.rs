//! The operations of the trading interface.
//!
//! Every operation comes in two steps with the network between them. The
//! first step plans a request; the second reads the response to it. What
//! carries the request to the server and brings the response back is the
//! caller's business. An operation that needs no round trip says so in its
//! first step and hands over its result there.

use vstd::prelude::*;

use crate::address::{located, Endpoint, EndpointView, Method};
use crate::envelope::{
    check_status, decode, decode_payload, is_api_error, is_success, payload_of, reads_as,
    replies_with, reply,
};
use crate::error::ClientError;
use crate::json::{json_text, parsed_json, Json, JsonView};
use crate::model::{
    Accounts, Candle, CandleSeries, CurrencyBalances, Instrument, Instruments, Operations,
    Orders, OrdersView, PlacedOrder, Portfolio, PositionBalances, RestOrderBook,
    RestOrderBookView,
};
use crate::number::{format_i64, int_text};
use crate::router;
use crate::router::depth_in_range;
use crate::time::{rfc3339_text, Timestamp};
use crate::vocabulary::OperationType;
use crate::wire::{views, Wire};

verus! {

/// The base address of the production interface.
pub const PRODUCTION_URL: &'static str = "https://api-invest.tinkoff.ru/openapi/";

/// The base address of the sandbox interface.
pub const SANDBOX_URL: &'static str = "https://api-invest.tinkoff.ru/openapi/sandbox/";

/// A request, ready to be sent.
#[derive(Debug, PartialEq)]
pub struct Request {
    pub method: Method,
    pub url: String,
    /// The value of the `Authorization` header.
    pub authorization: String,
    /// The value of the `Content-Type` header.
    pub content_type: String,
    /// The body, for a `Post`; a `Get` has none.
    pub body: Option<String>,
}

/// The value of a `Request`.
pub struct RequestView {
    pub method: Method,
    pub url: Seq<char>,
    pub authorization: Seq<char>,
    pub content_type: Seq<char>,
    pub body: Option<Seq<char>>,
}

impl View for Request {
    type V = RequestView;

    open spec fn view(&self) -> RequestView {
        RequestView {
            method: self.method,
            url: self.url@,
            authorization: self.authorization@,
            content_type: self.content_type@,
            body: match self.body {
                Some(text) => Some(text@),
                None => None,
            },
        }
    }
}

/// The first step of an operation that may need no round trip.
#[derive(Debug, PartialEq)]
pub enum Step<T> {
    /// Send this request, and read the response to it.
    Send(Request),
    /// Nothing is to be sent: this is the result.
    Done(T),
}

/// Whether `r` is the outcome of planning: the planned request, or a
/// request error where there is no plan.
pub open spec fn planned(r: Result<Request, ClientError>, plan: Option<RequestView>) -> bool {
    match r {
        Ok(request) => plan == Some(request@),
        Err(e) => e is Request && plan.is_none(),
    }
}

/// The body of a limit order.
pub open spec fn limit_order_body(lots: i64, operation: Seq<char>, price: Seq<char>) -> JsonView {
    JsonView::Object(
        seq![
            ("lots"@, JsonView::Number(int_text(lots as int))),
            ("operation"@, JsonView::Text(operation)),
            ("price"@, JsonView::Number(price)),
        ],
    )
}

/// The body of a market order.
pub open spec fn market_order_body(lots: i64, operation: Seq<char>) -> JsonView {
    JsonView::Object(
        seq![
            ("lots"@, JsonView::Number(int_text(lots as int))),
            ("operation"@, JsonView::Text(operation)),
        ],
    )
}

/// The book that stands for "no request was made": the depth that was asked
/// for, and nothing else.
pub open spec fn empty_book(depth: i64) -> RestOrderBookView {
    RestOrderBookView {
        figi: Seq::empty(),
        depth,
        bids: Seq::empty(),
        asks: Seq::empty(),
        trade_status: Seq::empty(),
        min_price_increment: "0"@,
        last_price: "0"@,
        close_price: "0"@,
        limit_up: "0"@,
        limit_down: "0"@,
        face_value: "0"@,
    }
}

/// Whether `r` is what reading the response to an order listing gives. A
/// payload that does not decode as a list of orders counts as an empty
/// list; this leniency holds for the order listing and for nothing else.
pub open spec fn replies_with_orders(
    status: u16,
    body: Seq<char>,
    r: Result<Orders, ClientError>,
) -> bool {
    if !is_success(status) {
        r matches Err(e) && is_api_error(e, status, body)
    } else {
        match parsed_json(body) {
            Some(doc) => r matches Ok(orders) && orders@ == (match Orders::decoded(
                payload_of(doc),
            ) {
                Some(v) => v,
                None => OrdersView { orders: Seq::empty() },
            }),
            None => r matches Err(ClientError::Mapping),
        }
    }
}

/// Whether `r` is what reading the response to a candle query gives: the
/// bars of the series that the payload decodes to.
pub open spec fn replies_with_candles(
    status: u16,
    body: Seq<char>,
    r: Result<Vec<Candle>, ClientError>,
) -> bool {
    if !is_success(status) {
        r matches Err(e) && is_api_error(e, status, body)
    } else {
        match parsed_json(body) {
            Some(doc) => match CandleSeries::decoded(payload_of(doc)) {
                Some(series) => r matches Ok(candles) && views(candles@) == series.candles,
                None => r matches Err(ClientError::Mapping),
            },
            None => r matches Err(ClientError::Mapping),
        }
    }
}

/// The fixed configuration of a client: the access token and the base
/// address. Neither changes after construction.
#[derive(Debug, PartialEq)]
pub struct RestClient {
    token: String,
    api_url: String,
}

impl RestClient {
    /// The access token.
    pub closed spec fn token(&self) -> Seq<char> {
        self.token@
    }

    /// The base address.
    pub closed spec fn base(&self) -> Seq<char> {
        self.api_url@
    }

    /// A client of the production interface.
    pub fn new(token: String) -> (client: RestClient)
        ensures
            client.token() == token@,
            client.base() == PRODUCTION_URL@,
    {
        RestClient { token, api_url: String::from_str(PRODUCTION_URL) }
    }

    /// A client of the sandbox interface.
    pub fn new_sandbox(token: String) -> (client: RestClient)
        ensures
            client.token() == token@,
            client.base() == SANDBOX_URL@,
    {
        RestClient { token, api_url: String::from_str(SANDBOX_URL) }
    }

    /// The request for `endpoint` with `body`: the endpoint's address below
    /// the base, the bearer token, and the JSON content type. There is none
    /// where the endpoint has no address.
    pub open spec fn plans(&self, endpoint: EndpointView, body: Option<Seq<char>>) -> Option<
        RequestView,
    > {
        match located(self.base(), endpoint) {
            Some(url) => Some(
                RequestView {
                    method: endpoint.method,
                    url,
                    authorization: "Bearer "@ + self.token(),
                    content_type: "application/json"@,
                    body,
                },
            ),
            None => None,
        }
    }

    /// Plans the request for `endpoint` with `body`.
    pub fn prepare(&self, endpoint: &Endpoint, body: Option<String>) -> (r: Result<
        Request,
        ClientError,
    >)
        ensures
            planned(
                r,
                self.plans(
                    endpoint@,
                    match body {
                        Some(text) => Some(text@),
                        None => None,
                    },
                ),
            ),
    {
        match endpoint.locate(self.api_url.as_str()) {
            Some(url) => Ok(
                Request {
                    method: endpoint.method,
                    url,
                    authorization: String::from_str("Bearer ").concat(self.token.as_str()),
                    content_type: String::from_str("application/json"),
                    body,
                },
            ),
            None => Err(ClientError::Request),
        }
    }

    /// Looks an instrument up by its FIGI.
    pub fn instrument_by_figi(&self, figi: &str) -> (r: Result<Request, ClientError>)
        ensures
            planned(r, self.plans(router::instrument_by_figi_route(figi@), None)),
    {
        self.prepare(&router::instrument_by_figi(figi), None)
    }

    /// Reads the response to `instrument_by_figi`.
    pub fn instrument_by_figi_reply(status: u16, body: &str) -> (r: Result<
        Instrument,
        ClientError,
    >)
        ensures
            replies_with::<Instrument>(status, body@, r),
    {
        reply::<Instrument>(status, body)
    }

    /// Searches instruments by ticker.
    pub fn instrument_by_ticker(&self, ticker: &str) -> (r: Result<Request, ClientError>)
        ensures
            planned(r, self.plans(router::instrument_by_ticker_route(ticker@), None)),
    {
        self.prepare(&router::instrument_by_ticker(ticker), None)
    }

    /// Lists the currency instruments.
    pub fn currencies(&self) -> (r: Result<Request, ClientError>)
        ensures
            planned(r, self.plans(router::currencies_route(), None)),
    {
        self.prepare(&router::currencies(), None)
    }

    /// Lists the exchange-traded funds.
    pub fn etfs(&self) -> (r: Result<Request, ClientError>)
        ensures
            planned(r, self.plans(router::etfs_route(), None)),
    {
        self.prepare(&router::etfs(), None)
    }

    /// Lists the bonds.
    pub fn bonds(&self) -> (r: Result<Request, ClientError>)
        ensures
            planned(r, self.plans(router::bonds_route(), None)),
    {
        self.prepare(&router::bonds(), None)
    }

    /// Lists the stocks.
    pub fn stocks(&self) -> (r: Result<Request, ClientError>)
        ensures
            planned(r, self.plans(router::stocks_route(), None)),
    {
        self.prepare(&router::stocks(), None)
    }

    /// Reads the response to a request that lists instruments:
    /// `instrument_by_ticker`, `currencies`, `etfs`, `bonds` or `stocks`.
    pub fn instruments_reply(status: u16, body: &str) -> (r: Result<Instruments, ClientError>)
        ensures
            replies_with::<Instruments>(status, body@, r),
    {
        reply::<Instruments>(status, body)
    }

    /// The request for the ledger events of `account_id` between `from` and
    /// `to`, for one instrument or, with an empty `figi`, for all. There is
    /// none where one of the instants has no RFC 3339 text.
    pub open spec fn operations_plan(
        &self,
        account_id: Seq<char>,
        from: Timestamp,
        to: Timestamp,
        figi: Seq<char>,
    ) -> Option<RequestView> {
        match rfc3339_text(from.secs, from.nanos) {
            Some(from_text) => match rfc3339_text(to.secs, to.nanos) {
                Some(to_text) => self.plans(
                    router::operations_route(account_id, from_text, to_text, figi),
                    None,
                ),
                None => None,
            },
            None => None,
        }
    }

    /// Lists the ledger events of an account in a time range.
    pub fn operations(&self, account_id: &str, from: Timestamp, to: Timestamp, figi: &str) -> (r:
        Result<Request, ClientError>)
        ensures
            planned(r, self.operations_plan(account_id@, from, to, figi@)),
    {
        let from_text = match from.to_rfc3339() {
            Some(text) => text,
            None => {
                return Err(ClientError::Request);
            },
        };
        let to_text = match to.to_rfc3339() {
            Some(text) => text,
            None => {
                return Err(ClientError::Request);
            },
        };
        self.prepare(
            &router::operations(account_id, from_text.as_str(), to_text.as_str(), figi),
            None,
        )
    }

    /// Reads the response to `operations`.
    pub fn operations_reply(status: u16, body: &str) -> (r: Result<Operations, ClientError>)
        ensures
            replies_with::<Operations>(status, body@, r),
    {
        reply::<Operations>(status, body)
    }

    /// Starts fetching the holdings of an account: plans the request for its
    /// positions. The cash balances take a second round trip, so the two
    /// halves of the result need not describe the same moment.
    pub fn portfolio(&self, account_id: &str) -> (r: Result<Request, ClientError>)
        ensures
            planned(r, self.plans(router::positions_portfolio_route(account_id@), None)),
    {
        self.positions_portfolio(account_id)
    }

    /// Goes on fetching the holdings of an account: reads the response to
    /// the request for its positions, and plans the request for its cash
    /// balances.
    pub fn portfolio_positions_reply(&self, account_id: &str, status: u16, body: &str) -> (r:
        Result<(PositionBalances, Request), ClientError>)
        ensures
            match reads_as::<PositionBalances>(status, body@) {
                Some(v) => match r {
                    Ok((positions, request)) => positions@ == v && self.plans(
                        router::currencies_portfolio_route(account_id@),
                        None,
                    ) == Some(request@),
                    Err(e) => e is Request && self.plans(
                        router::currencies_portfolio_route(account_id@),
                        None,
                    ).is_none(),
                },
                None => r matches Err(e) && replies_with::<PositionBalances>(
                    status,
                    body@,
                    Err(e),
                ),
            },
    {
        let positions = match reply::<PositionBalances>(status, body) {
            Ok(positions) => positions,
            Err(e) => {
                return Err(e);
            },
        };
        match self.currencies_portfolio(account_id) {
            Ok(request) => Ok((positions, request)),
            Err(e) => Err(e),
        }
    }

    /// Finishes fetching the holdings of an account: reads the response to
    /// the request for its cash balances, and puts the two halves together.
    pub fn portfolio_reply(positions: PositionBalances, status: u16, body: &str) -> (r: Result<
        Portfolio,
        ClientError,
    >)
        ensures
            match r {
                Ok(portfolio) => portfolio.positions == positions && replies_with::<
                    CurrencyBalances,
                >(status, body@, Ok(portfolio.currencies)),
                Err(e) => replies_with::<CurrencyBalances>(status, body@, Err(e)),
            },
    {
        match reply::<CurrencyBalances>(status, body) {
            Ok(currencies) => Ok(Portfolio { positions, currencies }),
            Err(e) => Err(e),
        }
    }

    /// Lists the held instruments of an account.
    pub fn positions_portfolio(&self, account_id: &str) -> (r: Result<Request, ClientError>)
        ensures
            planned(r, self.plans(router::positions_portfolio_route(account_id@), None)),
    {
        self.prepare(&router::positions_portfolio(account_id), None)
    }

    /// Reads the response to `positions_portfolio`.
    pub fn positions_portfolio_reply(status: u16, body: &str) -> (r: Result<
        PositionBalances,
        ClientError,
    >)
        ensures
            replies_with::<PositionBalances>(status, body@, r),
    {
        reply::<PositionBalances>(status, body)
    }

    /// Lists the cash balances of an account.
    pub fn currencies_portfolio(&self, account_id: &str) -> (r: Result<Request, ClientError>)
        ensures
            planned(r, self.plans(router::currencies_portfolio_route(account_id@), None)),
    {
        self.prepare(&router::currencies_portfolio(account_id), None)
    }

    /// Reads the response to `currencies_portfolio`.
    pub fn currencies_portfolio_reply(status: u16, body: &str) -> (r: Result<
        CurrencyBalances,
        ClientError,
    >)
        ensures
            replies_with::<CurrencyBalances>(status, body@, r),
    {
        reply::<CurrencyBalances>(status, body)
    }

    /// Cancels an order. The request has an empty body.
    pub fn order_cancel(&self, account_id: &str, id: &str) -> (r: Result<Request, ClientError>)
        ensures
            planned(
                r,
                self.plans(router::order_cancel_route(account_id@, id@), Some(Seq::empty())),
            ),
    {
        self.prepare(&router::order_cancel(account_id, id), Some(String::new()))
    }

    /// Reads the response to `order_cancel`. The status alone decides; the
    /// body of a successful response is not looked at.
    pub fn order_cancel_reply(status: u16, body: &str) -> (r: Result<(), ClientError>)
        ensures
            match r {
                Ok(_) => is_success(status),
                Err(e) => !is_success(status) && is_api_error(e, status, body@),
            },
    {
        check_status(status, body)
    }

    /// The request that places a limit order. There is none where `price`
    /// is no number literal.
    pub open spec fn limit_order_plan(
        &self,
        account_id: Seq<char>,
        figi: Seq<char>,
        lots: i64,
        operation: Seq<char>,
        price: Seq<char>,
    ) -> Option<RequestView> {
        match json_text(limit_order_body(lots, operation, price)) {
            Some(text) => self.plans(router::limit_order_route(account_id, figi), Some(text)),
            None => None,
        }
    }

    /// Places a limit order: `lots` lots of `figi`, bought or sold as
    /// `operation` says, at `price`, which is a decimal literal.
    pub fn limit_order(
        &self,
        account_id: &str,
        figi: &str,
        lots: i64,
        operation: OperationType,
        price: &str,
    ) -> (r: Result<Request, ClientError>)
        ensures
            planned(r, self.limit_order_plan(account_id@, figi@, lots, operation@, price@)),
    {
        let mut fields: Vec<(String, Json)> = Vec::new();
        fields.push((String::from_str("lots"), Json::number(format_i64(lots))));
        fields.push((String::from_str("operation"), Json::text(operation)));
        fields.push((String::from_str("price"), Json::number(String::from_str(price))));
        let body = Json::object(fields);
        assert(body@->Object_0 =~= limit_order_body(lots, operation@, price@)->Object_0);
        match body.render() {
            Some(text) => self.prepare(&router::limit_order(account_id, figi), Some(text)),
            None => Err(ClientError::Request),
        }
    }

    /// The request that places a market order.
    pub open spec fn market_order_plan(
        &self,
        account_id: Seq<char>,
        figi: Seq<char>,
        lots: i64,
        operation: Seq<char>,
    ) -> Option<RequestView> {
        match json_text(market_order_body(lots, operation)) {
            Some(text) => self.plans(router::market_order_route(account_id, figi), Some(text)),
            None => None,
        }
    }

    /// Places a market order: `lots` lots of `figi`, bought or sold as
    /// `operation` says, at whatever the market gives.
    pub fn market_order(
        &self,
        account_id: &str,
        figi: &str,
        lots: i64,
        operation: OperationType,
    ) -> (r:
        Result<Request, ClientError>)
        ensures
            planned(r, self.market_order_plan(account_id@, figi@, lots, operation@)),
    {
        let mut fields: Vec<(String, Json)> = Vec::new();
        fields.push((String::from_str("lots"), Json::number(format_i64(lots))));
        fields.push((String::from_str("operation"), Json::text(operation)));
        let body = Json::object(fields);
        assert(body@->Object_0 =~= market_order_body(lots, operation@)->Object_0);
        match body.render() {
            Some(text) => self.prepare(&router::market_order(account_id, figi), Some(text)),
            None => Err(ClientError::Request),
        }
    }

    /// Reads the response to `limit_order` or `market_order`.
    pub fn placed_order_reply(status: u16, body: &str) -> (r: Result<PlacedOrder, ClientError>)
        ensures
            replies_with::<PlacedOrder>(status, body@, r),
    {
        reply::<PlacedOrder>(status, body)
    }

    /// Lists the live orders of an account.
    pub fn orders(&self, account_id: &str) -> (r: Result<Request, ClientError>)
        ensures
            planned(r, self.plans(router::orders_route(account_id@), None)),
    {
        self.prepare(&router::orders(account_id), None)
    }

    /// Reads the response to `orders`, leniently: a payload that is no list
    /// of orders gives an empty list, not an error.
    pub fn orders_reply(status: u16, body: &str) -> (r: Result<Orders, ClientError>)
        ensures
            replies_with_orders(status, body@, r),
    {
        match decode(status, body) {
            Ok(payload) => match decode_payload::<Orders>(&payload) {
                Ok(orders) => Ok(orders),
                Err(_) => {
                    let orders = Orders { orders: Vec::new() };
                    assert(orders@.orders =~= Seq::empty());
                    Ok(orders)
                },
            },
            Err(e) => Err(e),
        }
    }

    /// The request for the bars of an instrument between `from` and `to`.
    /// There is none where one of the instants has no RFC 3339 text.
    pub open spec fn candles_plan(
        &self,
        from: Timestamp,
        to: Timestamp,
        interval: Seq<char>,
        figi: Seq<char>,
    ) -> Option<RequestView> {
        match rfc3339_text(from.secs, from.nanos) {
            Some(from_text) => match rfc3339_text(to.secs, to.nanos) {
                Some(to_text) => self.plans(
                    router::candles_route(from_text, to_text, interval, figi),
                    None,
                ),
                None => None,
            },
            None => None,
        }
    }

    /// Queries the bars of an instrument in a time range.
    pub fn candles(&self, from: Timestamp, to: Timestamp, interval: &str, figi: &str) -> (r:
        Result<Request, ClientError>)
        ensures
            planned(r, self.candles_plan(from, to, interval@, figi@)),
    {
        let from_text = match from.to_rfc3339() {
            Some(text) => text,
            None => {
                return Err(ClientError::Request);
            },
        };
        let to_text = match to.to_rfc3339() {
            Some(text) => text,
            None => {
                return Err(ClientError::Request);
            },
        };
        self.prepare(
            &router::candles(from_text.as_str(), to_text.as_str(), interval, figi),
            None,
        )
    }

    /// Reads the response to `candles`.
    pub fn candles_reply(status: u16, body: &str) -> (r: Result<Vec<Candle>, ClientError>)
        ensures
            replies_with_candles(status, body@, r),
    {
        match reply::<CandleSeries>(status, body) {
            Ok(series) => Ok(series.candles),
            Err(e) => Err(e),
        }
    }

    /// Queries the order book of an instrument down to `depth` levels.
    ///
    /// A depth outside `1..=MAX_ORDERBOOK_DEPTH` takes no round trip: the
    /// result is then an empty book that echoes the depth, which a caller
    /// can tell from the book of an instrument without liquidity by its
    /// empty FIGI.
    pub fn orderbook(&self, depth: i64, figi: &str) -> (r: Result<
        Step<RestOrderBook>,
        ClientError,
    >)
        ensures
            match r {
                Ok(Step::Done(book)) => !depth_in_range(depth) && book@ == empty_book(depth),
                Ok(Step::Send(request)) => depth_in_range(depth) && self.plans(
                    router::orderbook_route(depth, figi@),
                    None,
                ) == Some(request@),
                Err(e) => depth_in_range(depth) && e is Request && self.plans(
                    router::orderbook_route(depth, figi@),
                    None,
                ).is_none(),
            },
    {
        if depth < 1 || depth > router::MAX_ORDERBOOK_DEPTH {
            let book = RestOrderBook {
                figi: String::new(),
                depth,
                bids: Vec::new(),
                asks: Vec::new(),
                trade_status: String::new(),
                min_price_increment: String::from_str("0"),
                last_price: String::from_str("0"),
                close_price: String::from_str("0"),
                limit_up: String::from_str("0"),
                limit_down: String::from_str("0"),
                face_value: String::from_str("0"),
            };
            assert(book@.bids =~= Seq::empty());
            assert(book@.asks =~= Seq::empty());
            return Ok(Step::Done(book));
        }
        match self.prepare(&router::orderbook(depth, figi), None) {
            Ok(request) => Ok(Step::Send(request)),
            Err(e) => Err(e),
        }
    }

    /// Reads the response to the request that `orderbook` planned.
    pub fn orderbook_reply(status: u16, body: &str) -> (r: Result<RestOrderBook, ClientError>)
        ensures
            replies_with::<RestOrderBook>(status, body@, r),
    {
        reply::<RestOrderBook>(status, body)
    }

    /// Lists the accounts of the caller.
    pub fn accounts(&self) -> (r: Result<Request, ClientError>)
        ensures
            planned(r, self.plans(router::accounts_route(), None)),
    {
        self.prepare(&router::accounts(), None)
    }

    /// Reads the response to `accounts`.
    pub fn accounts_reply(status: u16, body: &str) -> (r: Result<Accounts, ClientError>)
        ensures
            replies_with::<Accounts>(status, body@, r),
    {
        reply::<Accounts>(status, body)
    }
}

} // verus!
