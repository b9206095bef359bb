//! The endpoint of every operation.
//!
//! Parameters are written in a fixed order. An account is named only where
//! it is not the default account; a filter is written only where it is not
//! empty.

use vstd::prelude::*;

use crate::address::{Endpoint, EndpointView, Method, Pair, Query};
use crate::json::same_text;
use crate::number::{format_i64, int_text};

verus! {

/// The account that the server picks when a request names none.
pub const DEFAULT_ACCOUNT: &'static str = "";

/// The deepest order book that the server hands out.
pub const MAX_ORDERBOOK_DEPTH: i64 = 20;

/// Whether `account` stands for the default account.
pub open spec fn is_default_account(account: Seq<char>) -> bool {
    account == DEFAULT_ACCOUNT@
}

/// `query`, with the account named behind it unless it is the default one.
pub open spec fn scoped(query: Seq<Pair>, account: Seq<char>) -> Seq<Pair> {
    if is_default_account(account) {
        query
    } else {
        query.push(("brokerAccountId"@, account))
    }
}

/// `query`, with `key=value` behind it unless the value is empty.
pub open spec fn filtered(query: Seq<Pair>, key: Seq<char>, value: Seq<char>) -> Seq<Pair> {
    if value.len() == 0 {
        query
    } else {
        query.push((key, value))
    }
}

/// Whether `depth` is a depth that the server accepts.
pub open spec fn depth_in_range(depth: i64) -> bool {
    1 <= depth <= MAX_ORDERBOOK_DEPTH
}

/// A `Get` endpoint.
pub open spec fn get(path: Seq<char>, query: Seq<Pair>) -> EndpointView {
    EndpointView { method: Method::Get, path, query }
}

/// A `Post` endpoint.
pub open spec fn post(path: Seq<char>, query: Seq<Pair>) -> EndpointView {
    EndpointView { method: Method::Post, path, query }
}

/// Instrument lookup by FIGI.
pub open spec fn instrument_by_figi_route(figi: Seq<char>) -> EndpointView {
    get("market/search/by-figi"@, seq![("figi"@, figi)])
}

/// Instrument search by ticker.
pub open spec fn instrument_by_ticker_route(ticker: Seq<char>) -> EndpointView {
    get("market/search/by-ticker"@, seq![("ticker"@, ticker)])
}

/// The list of currency instruments.
pub open spec fn currencies_route() -> EndpointView {
    get("market/currencies"@, seq![])
}

/// The list of exchange-traded funds.
pub open spec fn etfs_route() -> EndpointView {
    get("market/etfs"@, seq![])
}

/// The list of bonds.
pub open spec fn bonds_route() -> EndpointView {
    get("market/bonds"@, seq![])
}

/// The list of stocks.
pub open spec fn stocks_route() -> EndpointView {
    get("market/stocks"@, seq![])
}

/// The list of the caller's accounts.
pub open spec fn accounts_route() -> EndpointView {
    get("user/accounts"@, seq![])
}

/// The bars of an instrument in a time range; `from` and `to` are RFC 3339
/// texts, and an empty `figi` is left out.
pub open spec fn candles_route(
    from: Seq<char>,
    to: Seq<char>,
    interval: Seq<char>,
    figi: Seq<char>,
) -> EndpointView {
    get(
        "market/candles"@,
        filtered(seq![("interval"@, interval), ("from"@, from), ("to"@, to)], "figi"@, figi),
    )
}

/// The order book down to `depth` levels; an empty `figi` is left out.
pub open spec fn orderbook_route(depth: i64, figi: Seq<char>) -> EndpointView {
    get("market/orderbook"@, filtered(seq![("depth"@, int_text(depth as int))], "figi"@, figi))
}

/// The ledger events of an account in a time range; `from` and `to` are
/// RFC 3339 texts, and an empty `figi` is left out.
pub open spec fn operations_route(
    account: Seq<char>,
    from: Seq<char>,
    to: Seq<char>,
    figi: Seq<char>,
) -> EndpointView {
    get("operations"@, scoped(filtered(seq![("from"@, from), ("to"@, to)], "figi"@, figi), account))
}

/// The held instruments of an account.
pub open spec fn positions_portfolio_route(account: Seq<char>) -> EndpointView {
    get("portfolio"@, scoped(seq![], account))
}

/// The cash balances of an account.
pub open spec fn currencies_portfolio_route(account: Seq<char>) -> EndpointView {
    get("portfolio/currencies"@, scoped(seq![], account))
}

/// The live orders of an account.
pub open spec fn orders_route(account: Seq<char>) -> EndpointView {
    get("orders"@, scoped(seq![], account))
}

/// Placement of a limit order on an instrument.
pub open spec fn limit_order_route(account: Seq<char>, figi: Seq<char>) -> EndpointView {
    post("orders/limit-order"@, scoped(seq![("figi"@, figi)], account))
}

/// Placement of a market order on an instrument.
pub open spec fn market_order_route(account: Seq<char>, figi: Seq<char>) -> EndpointView {
    post("orders/market-order"@, scoped(seq![("figi"@, figi)], account))
}

/// Cancellation of an order.
pub open spec fn order_cancel_route(account: Seq<char>, order_id: Seq<char>) -> EndpointView {
    post("orders/cancel"@, scoped(seq![("orderId"@, order_id)], account))
}

impl Query {
    /// Names the account, unless it is the default one.
    pub fn scope(&mut self, account: &str)
        ensures
            final(self)@ == scoped(old(self)@, account@),
    {
        if !same_text(account, DEFAULT_ACCOUNT) {
            self.append("brokerAccountId", account);
        }
    }

    /// Adds `key=value`, unless the value is empty.
    pub fn filter(&mut self, key: &str, value: &str)
        ensures
            final(self)@ == filtered(old(self)@, key@, value@),
    {
        if !value.is_empty() {
            self.append(key, value);
        }
    }
}

fn endpoint(method: Method, path: &str, query: Query) -> (e: Endpoint)
    ensures
        e@ == (EndpointView { method, path: path@, query: query@ }),
{
    Endpoint { method, path: String::from_str(path), query }
}

/// The endpoint of instrument lookup by FIGI.
pub fn instrument_by_figi(figi: &str) -> (e: Endpoint)
    ensures
        e@ == instrument_by_figi_route(figi@),
{
    let mut query = Query::new();
    query.append("figi", figi);
    assert(query@ =~= seq![("figi"@, figi@)]);
    endpoint(Method::Get, "market/search/by-figi", query)
}

/// The endpoint of instrument search by ticker.
pub fn instrument_by_ticker(ticker: &str) -> (e: Endpoint)
    ensures
        e@ == instrument_by_ticker_route(ticker@),
{
    let mut query = Query::new();
    query.append("ticker", ticker);
    assert(query@ =~= seq![("ticker"@, ticker@)]);
    endpoint(Method::Get, "market/search/by-ticker", query)
}

/// The endpoint that lists currency instruments.
pub fn currencies() -> (e: Endpoint)
    ensures
        e@ == currencies_route(),
{
    endpoint(Method::Get, "market/currencies", Query::new())
}

/// The endpoint that lists exchange-traded funds.
pub fn etfs() -> (e: Endpoint)
    ensures
        e@ == etfs_route(),
{
    endpoint(Method::Get, "market/etfs", Query::new())
}

/// The endpoint that lists bonds.
pub fn bonds() -> (e: Endpoint)
    ensures
        e@ == bonds_route(),
{
    endpoint(Method::Get, "market/bonds", Query::new())
}

/// The endpoint that lists stocks.
pub fn stocks() -> (e: Endpoint)
    ensures
        e@ == stocks_route(),
{
    endpoint(Method::Get, "market/stocks", Query::new())
}

/// The endpoint that lists the caller's accounts.
pub fn accounts() -> (e: Endpoint)
    ensures
        e@ == accounts_route(),
{
    endpoint(Method::Get, "user/accounts", Query::new())
}

/// The endpoint of a candle query; `from` and `to` are RFC 3339 texts.
pub fn candles(from: &str, to: &str, interval: &str, figi: &str) -> (e: Endpoint)
    ensures
        e@ == candles_route(from@, to@, interval@, figi@),
{
    let mut query = Query::new();
    query.append("interval", interval);
    query.append("from", from);
    query.append("to", to);
    assert(query@ =~= seq![("interval"@, interval@), ("from"@, from@), ("to"@, to@)]);
    query.filter("figi", figi);
    endpoint(Method::Get, "market/candles", query)
}

/// The endpoint of an order-book query.
pub fn orderbook(depth: i64, figi: &str) -> (e: Endpoint)
    ensures
        e@ == orderbook_route(depth, figi@),
{
    let mut query = Query::new();
    let depth_text = format_i64(depth);
    query.append("depth", depth_text.as_str());
    assert(query@ =~= seq![("depth"@, int_text(depth as int))]);
    query.filter("figi", figi);
    endpoint(Method::Get, "market/orderbook", query)
}

/// The endpoint that lists ledger events; `from` and `to` are RFC 3339
/// texts.
pub fn operations(account: &str, from: &str, to: &str, figi: &str) -> (e: Endpoint)
    ensures
        e@ == operations_route(account@, from@, to@, figi@),
{
    let mut query = Query::new();
    query.append("from", from);
    query.append("to", to);
    assert(query@ =~= seq![("from"@, from@), ("to"@, to@)]);
    query.filter("figi", figi);
    query.scope(account);
    endpoint(Method::Get, "operations", query)
}

/// The endpoint that lists the held instruments of an account.
pub fn positions_portfolio(account: &str) -> (e: Endpoint)
    ensures
        e@ == positions_portfolio_route(account@),
{
    let mut query = Query::new();
    query.scope(account);
    endpoint(Method::Get, "portfolio", query)
}

/// The endpoint that lists the cash balances of an account.
pub fn currencies_portfolio(account: &str) -> (e: Endpoint)
    ensures
        e@ == currencies_portfolio_route(account@),
{
    let mut query = Query::new();
    query.scope(account);
    endpoint(Method::Get, "portfolio/currencies", query)
}

/// The endpoint that lists the live orders of an account.
pub fn orders(account: &str) -> (e: Endpoint)
    ensures
        e@ == orders_route(account@),
{
    let mut query = Query::new();
    query.scope(account);
    endpoint(Method::Get, "orders", query)
}

/// The endpoint that places a limit order.
pub fn limit_order(account: &str, figi: &str) -> (e: Endpoint)
    ensures
        e@ == limit_order_route(account@, figi@),
{
    let mut query = Query::new();
    query.append("figi", figi);
    assert(query@ =~= seq![("figi"@, figi@)]);
    query.scope(account);
    endpoint(Method::Post, "orders/limit-order", query)
}

/// The endpoint that places a market order.
pub fn market_order(account: &str, figi: &str) -> (e: Endpoint)
    ensures
        e@ == market_order_route(account@, figi@),
{
    let mut query = Query::new();
    query.append("figi", figi);
    assert(query@ =~= seq![("figi"@, figi@)]);
    query.scope(account);
    endpoint(Method::Post, "orders/market-order", query)
}

/// The endpoint that cancels an order.
pub fn order_cancel(account: &str, order_id: &str) -> (e: Endpoint)
    ensures
        e@ == order_cancel_route(account@, order_id@),
{
    let mut query = Query::new();
    query.append("orderId", order_id);
    assert(query@ =~= seq![("orderId"@, order_id@)]);
    query.scope(account);
    endpoint(Method::Post, "orders/cancel", query)
}

} // verus!
