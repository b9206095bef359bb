//! What holds of the operations taken together.

use vstd::prelude::*;

use crate::address::Pair;
use crate::client::{replies_with_candles, replies_with_orders};
use crate::envelope::{is_api_error, is_success, replies_with, unwraps_to};
use crate::error::ClientError;
use crate::encode::trades_wire;
use crate::json::{
    field, integer_at, lemma_member_at, number_or, text_at, text_or, Json, JsonView,
};
use crate::model::{
    Candle, Instrument, InstrumentView, MoneyAmount, MoneyAmountView, Operation, OperationView,
    Orders, Trade, TradeView,
};
use crate::number::lemma_int_text_reads_back;
use crate::router::{
    currencies_portfolio_route, is_default_account, limit_order_route, market_order_route,
    operations_route, order_cancel_route, orders_route, positions_portfolio_route,
};
use crate::wire::{decoded_list, Wire};

verus! {

/// Writing an amount and decoding what was written gives the amount back.
pub proof fn lemma_money_amount_round_trip(v: MoneyAmountView)
    ensures
        MoneyAmount::decoded(MoneyAmount::wire(v)) == Some(v),
{
    reveal_strlit("currency");
    reveal_strlit("value");
    assert("currency"@.len() == 8 && "value"@.len() == 5);
    let fields = MoneyAmount::wire(v)->Object_0;
    lemma_member_at(fields, 0);
    lemma_member_at(fields, 1);
}

/// Writing an instrument and decoding what was written gives the instrument
/// back, in every field.
pub proof fn lemma_instrument_round_trip(v: InstrumentView)
    ensures
        Instrument::decoded(Instrument::wire(v)) == Some(v),
{
    reveal_strlit("figi");
    reveal_strlit("ticker");
    reveal_strlit("isin");
    reveal_strlit("name");
    reveal_strlit("minPriceIncrement");
    reveal_strlit("lot");
    reveal_strlit("currency");
    reveal_strlit("type");
    lemma_int_text_reads_back(v.lot);
    assert("figi"@.len() == 4 && "figi"@[0] == 'f');
    assert("ticker"@.len() == 6);
    assert("isin"@.len() == 4 && "isin"@[0] == 'i');
    assert("name"@.len() == 4 && "name"@[0] == 'n');
    assert("minPriceIncrement"@.len() == 17);
    assert("lot"@.len() == 3);
    assert("currency"@.len() == 8);
    assert("type"@.len() == 4 && "type"@[0] == 't');
    let fields = Instrument::wire(v)->Object_0;
    lemma_member_at(fields, 0);
    lemma_member_at(fields, 1);
    lemma_member_at(fields, 2);
    lemma_member_at(fields, 3);
    lemma_member_at(fields, 4);
    lemma_member_at(fields, 5);
    lemma_member_at(fields, 6);
    lemma_member_at(fields, 7);
}

/// Writing a fill and decoding what was written gives the fill back,
/// provided that its instant survives being written and read.
pub proof fn lemma_trade_round_trip(v: TradeView)
    ensures
        v.date_time.reads_back() ==> (Trade::wire(v) matches Some(j) && Trade::decoded(j)
            == Some(v)),
{
    if v.date_time.reads_back() {
        reveal_strlit("id");
        reveal_strlit("date");
        reveal_strlit("price");
        reveal_strlit("quantity");
        assert("id"@.len() == 2 && "date"@.len() == 4 && "price"@.len() == 5 && "quantity"@.len()
            == 8);
        lemma_int_text_reads_back(v.quantity);
        let fields = Trade::wire(v).unwrap()->Object_0;
        lemma_member_at(fields, 0);
        lemma_member_at(fields, 1);
        lemma_member_at(fields, 2);
        lemma_member_at(fields, 3);
    }
}

/// Whether every instant of a ledger event, its own and those of its fills,
/// survives being written and read.
pub open spec fn instants_read_back(v: OperationView) -> bool {
    &&& v.date_time.reads_back()
    &&& forall|i: int| 0 <= i < v.trades.len() ==> (#[trigger] v.trades[i]).date_time.reads_back()
}

/// Writing a ledger event and decoding what was written gives the event
/// back, provided that its instants survive being written and read.
pub proof fn lemma_operation_round_trip(v: OperationView)
    ensures
        instants_read_back(v) ==> (Operation::wire(v) matches Some(j) && Operation::decoded(j)
            == Some(v)),
{
    if instants_read_back(v) {
        assert forall|i: int| 0 <= i < v.trades.len() implies (#[trigger] Trade::wire(
            v.trades[i],
        )) is Some by {
            lemma_trade_round_trip(v.trades[i]);
        }
        let items = trades_wire(v.trades).unwrap();
        assert forall|i: int| 0 <= i < items.len() implies (#[trigger] Trade::decoded(items[i]))
            == Some(v.trades[i]) by {
            lemma_trade_round_trip(v.trades[i]);
        }
        assert(decoded_list::<Trade>(items).unwrap() =~= v.trades);
        lemma_money_amount_round_trip(v.commission);
        lemma_int_text_reads_back(v.quantity);
        lemma_int_text_reads_back(v.quantity_executed);
        reveal_strlit("id");
        reveal_strlit("status");
        reveal_strlit("trades");
        reveal_strlit("commission");
        reveal_strlit("currency");
        reveal_strlit("payment");
        reveal_strlit("price");
        reveal_strlit("quantity");
        reveal_strlit("quantityExecuted");
        reveal_strlit("figi");
        reveal_strlit("instrumentType");
        reveal_strlit("isMarginCall");
        reveal_strlit("date");
        reveal_strlit("operationType");
        assert("id"@.len() == 2);
        assert("status"@.len() == 6 && "status"@[0] == 's');
        assert("trades"@.len() == 6 && "trades"@[0] == 't');
        assert("commission"@.len() == 10);
        assert("currency"@.len() == 8 && "currency"@[0] == 'c');
        assert("payment"@.len() == 7);
        assert("price"@.len() == 5);
        assert("quantity"@.len() == 8 && "quantity"@[0] == 'q');
        assert("quantityExecuted"@.len() == 16);
        assert("figi"@.len() == 4 && "figi"@[0] == 'f');
        assert("instrumentType"@.len() == 14);
        assert("isMarginCall"@.len() == 12);
        assert("date"@.len() == 4 && "date"@[0] == 'd');
        assert("operationType"@.len() == 13);
        let fields = Operation::wire(v).unwrap()->Object_0;
        lemma_member_at(fields, 0);
        lemma_member_at(fields, 1);
        lemma_member_at(fields, 2);
        lemma_member_at(fields, 3);
        lemma_member_at(fields, 4);
        lemma_member_at(fields, 5);
        lemma_member_at(fields, 6);
        lemma_member_at(fields, 7);
        lemma_member_at(fields, 8);
        lemma_member_at(fields, 9);
        lemma_member_at(fields, 10);
        lemma_member_at(fields, 11);
        lemma_member_at(fields, 12);
        lemma_member_at(fields, 13);
    }
}

/// Whether a document has every field that an instrument cannot do without.
pub open spec fn has_required_instrument_fields(j: JsonView) -> bool {
    &&& text_at(j, "figi"@) is Some
    &&& text_at(j, "ticker"@) is Some
    &&& text_at(j, "name"@) is Some
    &&& integer_at(j, "lot"@) is Some
    &&& text_at(j, "currency"@) is Some
    &&& text_at(j, "type"@) is Some
}

/// An instrument decodes without its ISIN and without its price increment,
/// which are then empty and zero; it does not decode without its FIGI.
pub proof fn lemma_instrument_fallbacks(j: JsonView)
    ensures
        has_required_instrument_fields(j) && field(j, "isin"@) is None && number_or(
            j,
            "minPriceIncrement"@,
            "0"@,
        ) is Some ==> (Instrument::decoded(j) matches Some(v) && v.isin == Seq::<char>::empty()),
        has_required_instrument_fields(j) && field(j, "minPriceIncrement"@) is None && text_or(
            j,
            "isin"@,
            ""@,
        ) is Some ==> (Instrument::decoded(j) matches Some(v) && v.min_price_increment == "0"@),
        field(j, "figi"@) is None ==> Instrument::decoded(j) is None,
{
    reveal_strlit("");
    assert(""@ =~= Seq::<char>::empty());
}

/// Whether a query names the account `account`.
pub open spec fn names_account(query: Seq<Pair>, account: Seq<char>) -> bool {
    query.contains(("brokerAccountId"@, account))
}

/// Whether a query names no account at all.
pub open spec fn names_no_account(query: Seq<Pair>) -> bool {
    forall|i: int| 0 <= i < query.len() ==> (#[trigger] query[i]).0 != "brokerAccountId"@
}

/// Whether a query treats `account` as account scoping demands: it names
/// the account, unless that is the default account, which it leaves out.
pub open spec fn scopes_to(query: Seq<Pair>, account: Seq<char>) -> bool {
    if is_default_account(account) {
        names_no_account(query)
    } else {
        names_account(query, account)
    }
}

/// Every operation that works on an account names the account in its
/// query, and leaves the default account out of it.
pub proof fn lemma_account_scoping(
    account: Seq<char>,
    from: Seq<char>,
    to: Seq<char>,
    figi: Seq<char>,
    order_id: Seq<char>,
)
    ensures
        scopes_to(operations_route(account, from, to, figi).query, account),
        scopes_to(positions_portfolio_route(account).query, account),
        scopes_to(currencies_portfolio_route(account).query, account),
        scopes_to(orders_route(account).query, account),
        scopes_to(limit_order_route(account, figi).query, account),
        scopes_to(market_order_route(account, figi).query, account),
        scopes_to(order_cancel_route(account, order_id).query, account),
{
    reveal_strlit("brokerAccountId");
    reveal_strlit("from");
    reveal_strlit("to");
    reveal_strlit("figi");
    reveal_strlit("orderId");
    assert("brokerAccountId"@.len() == 15);
    assert("from"@.len() == 4 && "to"@.len() == 2 && "figi"@.len() == 4 && "orderId"@.len() == 7);
    let pair = ("brokerAccountId"@, account);
    if !is_default_account(account) {
        let q = operations_route(account, from, to, figi).query;
        assert(q[q.len() - 1] == pair);
        let q = positions_portfolio_route(account).query;
        assert(q[q.len() - 1] == pair);
        let q = currencies_portfolio_route(account).query;
        assert(q[q.len() - 1] == pair);
        let q = orders_route(account).query;
        assert(q[q.len() - 1] == pair);
        let q = limit_order_route(account, figi).query;
        assert(q[q.len() - 1] == pair);
        let q = market_order_route(account, figi).query;
        assert(q[q.len() - 1] == pair);
        let q = order_cancel_route(account, order_id).query;
        assert(q[q.len() - 1] == pair);
    }
}

/// A response with a failure status unwraps to the error that carries the
/// status and the body, whatever the body holds.
pub proof fn lemma_failure_status_unwraps(
    status: u16,
    body: Seq<char>,
    r: Result<Json, ClientError>,
)
    ensures
        !is_success(status) && unwraps_to(status, body, r) ==> (r matches Err(e) && is_api_error(
            e,
            status,
            body,
        )),
{
}

/// A response with a failure status reads as the error that carries the
/// status and the body, whatever the body holds and whatever record was
/// asked for.
pub proof fn lemma_failure_status_replies<T: Wire>(
    status: u16,
    body: Seq<char>,
    r: Result<T, ClientError>,
)
    ensures
        !is_success(status) && replies_with::<T>(status, body, r) ==> (r matches Err(e)
            && is_api_error(e, status, body)),
{
}

/// The lenient order listing is no exception: a failure status gives the
/// error, not an empty list.
pub proof fn lemma_failure_status_replies_to_orders(
    status: u16,
    body: Seq<char>,
    r: Result<Orders, ClientError>,
)
    ensures
        !is_success(status) && replies_with_orders(status, body, r) ==> (r matches Err(e)
            && is_api_error(e, status, body)),
{
}

/// Nor is the candle query.
pub proof fn lemma_failure_status_replies_to_candles(
    status: u16,
    body: Seq<char>,
    r: Result<Vec<Candle>, ClientError>,
)
    ensures
        !is_success(status) && replies_with_candles(status, body, r) ==> (r matches Err(e)
            && is_api_error(e, status, body)),
{
}

} // verus!
