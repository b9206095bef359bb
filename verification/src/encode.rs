//! Writing records in their wire shape.

use vstd::prelude::*;

use crate::json::{Json, JsonView};
use crate::model::{
    Instrument, InstrumentView, MoneyAmount, MoneyAmountView, Operation, OperationView, Trade,
    TradeView,
};
use crate::number::{format_i64, int_text};
use crate::time::{rfc3339_text, Timestamp};

verus! {

/// The string document that holds the RFC 3339 text of an instant; `None`
/// where the instant has no such text.
pub open spec fn instant_wire(t: Timestamp) -> Option<JsonView> {
    match rfc3339_text(t.secs, t.nanos) {
        Some(text) => Some(JsonView::Text(text)),
        None => None,
    }
}

fn text_member(key: &str, value: &String) -> (m: (String, Json))
    ensures
        m.0@ == key@,
        m.1@ == JsonView::Text(value@),
{
    (String::from_str(key), Json::text(value.clone()))
}

fn number_member(key: &str, literal: &String) -> (m: (String, Json))
    ensures
        m.0@ == key@,
        m.1@ == JsonView::Number(literal@),
{
    (String::from_str(key), Json::number(literal.clone()))
}

fn integer_member(key: &str, value: i64) -> (m: (String, Json))
    ensures
        m.0@ == key@,
        m.1@ == JsonView::Number(int_text(value as int)),
{
    (String::from_str(key), Json::number(format_i64(value)))
}

fn instant_member(key: &str, value: Timestamp) -> (r: Option<(String, Json)>)
    ensures
        match r {
            Some(m) => m.0@ == key@ && instant_wire(value) == Some(m.1@),
            None => instant_wire(value).is_none(),
        },
{
    match value.to_rfc3339() {
        Some(text) => Some((String::from_str(key), Json::text(text))),
        None => None,
    }
}

impl MoneyAmount {
    /// The wire shape of an amount.
    pub open spec fn wire(v: MoneyAmountView) -> JsonView {
        JsonView::Object(
            seq![
                ("currency"@, JsonView::Text(v.currency)),
                ("value"@, JsonView::Number(v.value)),
            ],
        )
    }

    /// Writes the amount in its wire shape.
    pub fn to_json(&self) -> (j: Json)
        ensures
            j@ == MoneyAmount::wire(self@),
    {
        let mut fields: Vec<(String, Json)> = Vec::new();
        fields.push(text_member("currency", &self.currency));
        fields.push(number_member("value", &self.value));
        let j = Json::object(fields);
        assert(j@->Object_0 =~= MoneyAmount::wire(self@)->Object_0);
        j
    }
}

impl Instrument {
    /// The wire shape of an instrument.
    pub open spec fn wire(v: InstrumentView) -> JsonView {
        JsonView::Object(
            seq![
                ("figi"@, JsonView::Text(v.figi)),
                ("ticker"@, JsonView::Text(v.ticker)),
                ("isin"@, JsonView::Text(v.isin)),
                ("name"@, JsonView::Text(v.name)),
                ("minPriceIncrement"@, JsonView::Number(v.min_price_increment)),
                ("lot"@, JsonView::Number(int_text(v.lot as int))),
                ("currency"@, JsonView::Text(v.currency)),
                ("type"@, JsonView::Text(v.instrument_type)),
            ],
        )
    }

    /// Writes the instrument in its wire shape.
    pub fn to_json(&self) -> (j: Json)
        ensures
            j@ == Instrument::wire(self@),
    {
        let mut fields: Vec<(String, Json)> = Vec::new();
        fields.push(text_member("figi", &self.figi));
        fields.push(text_member("ticker", &self.ticker));
        fields.push(text_member("isin", &self.isin));
        fields.push(text_member("name", &self.name));
        fields.push(number_member("minPriceIncrement", &self.min_price_increment));
        fields.push(integer_member("lot", self.lot));
        fields.push(text_member("currency", &self.currency));
        fields.push(text_member("type", &self.instrument_type));
        let j = Json::object(fields);
        assert(j@->Object_0 =~= Instrument::wire(self@)->Object_0);
        j
    }
}

impl Trade {
    /// The wire shape of a fill; `None` where its instant has no RFC 3339
    /// text.
    pub open spec fn wire(v: TradeView) -> Option<JsonView> {
        match instant_wire(v.date_time) {
            Some(date) => Some(
                JsonView::Object(
                    seq![
                        ("id"@, JsonView::Text(v.id)),
                        ("date"@, date),
                        ("price"@, JsonView::Number(v.price)),
                        ("quantity"@, JsonView::Number(int_text(v.quantity as int))),
                    ],
                ),
            ),
            None => None,
        }
    }

    /// Writes the fill in its wire shape.
    pub fn to_json(&self) -> (r: Option<Json>)
        ensures
            match r {
                Some(j) => Trade::wire(self@) == Some(j@),
                None => Trade::wire(self@).is_none(),
            },
    {
        let mut fields: Vec<(String, Json)> = Vec::new();
        fields.push(text_member("id", &self.id));
        fields.push(instant_member("date", self.date_time)?);
        fields.push(number_member("price", &self.price));
        fields.push(integer_member("quantity", self.quantity));
        let j = Json::object(fields);
        assert(j@->Object_0 =~= Trade::wire(self@).unwrap()->Object_0);
        Some(j)
    }
}

/// The wire shapes of a sequence of fills; `None` where one has none.
pub open spec fn trades_wire(trades: Seq<TradeView>) -> Option<Seq<JsonView>> {
    if forall|i: int| 0 <= i < trades.len() ==> (#[trigger] Trade::wire(trades[i])) is Some {
        Some(Seq::new(trades.len(), |i: int| Trade::wire(trades[i]).unwrap()))
    } else {
        None
    }
}

fn trades_to_json(trades: &Vec<Trade>) -> (r: Option<Vec<Json>>)
    ensures
        match r {
            Some(items) => trades_wire(crate::wire::views(trades@)) == Some(
                crate::json::views_of(items@),
            ),
            None => trades_wire(crate::wire::views(trades@)).is_none(),
        },
{
    let ghost all = crate::wire::views(trades@);
    let mut items: Vec<Json> = Vec::new();
    let mut i: usize = 0;
    while i < trades.len()
        invariant
            i <= trades@.len(),
            items@.len() == i,
            all == crate::wire::views(trades@),
            forall|k: int| 0 <= k < i ==> (#[trigger] Trade::wire(all[k])) == Some(items@[k]@),
        decreases trades@.len() - i,
    {
        match trades[i].to_json() {
            Some(j) => {
                items.push(j);
            },
            None => {
                assert(Trade::wire(all[i as int]).is_none());
                return None;
            },
        }
        i = i + 1;
    }
    assert(trades_wire(all).unwrap() =~= crate::json::views_of(items@));
    Some(items)
}

impl Operation {
    /// The wire shape of a ledger event; `None` where one of its instants
    /// has no RFC 3339 text.
    pub open spec fn wire(v: OperationView) -> Option<JsonView> {
        match (trades_wire(v.trades), instant_wire(v.date_time)) {
            (Some(trades), Some(date)) => Some(
                JsonView::Object(
                    seq![
                        ("id"@, JsonView::Text(v.id)),
                        ("status"@, JsonView::Text(v.status)),
                        ("trades"@, JsonView::Array(trades)),
                        ("commission"@, MoneyAmount::wire(v.commission)),
                        ("currency"@, JsonView::Text(v.currency)),
                        ("payment"@, JsonView::Number(v.payment)),
                        ("price"@, JsonView::Number(v.price)),
                        ("quantity"@, JsonView::Number(int_text(v.quantity as int))),
                        (
                            "quantityExecuted"@,
                            JsonView::Number(int_text(v.quantity_executed as int)),
                        ),
                        ("figi"@, JsonView::Text(v.figi)),
                        ("instrumentType"@, JsonView::Text(v.instrument_type)),
                        ("isMarginCall"@, JsonView::Bool(v.is_margin_call)),
                        ("date"@, date),
                        ("operationType"@, JsonView::Text(v.operation_type)),
                    ],
                ),
            ),
            _ => None,
        }
    }

    /// Writes the ledger event in its wire shape.
    pub fn to_json(&self) -> (r: Option<Json>)
        ensures
            match r {
                Some(j) => Operation::wire(self@) == Some(j@),
                None => Operation::wire(self@).is_none(),
            },
    {
        let trades = trades_to_json(&self.trades)?;
        let date = instant_member("date", self.date_time)?;
        let mut fields: Vec<(String, Json)> = Vec::new();
        fields.push(text_member("id", &self.id));
        fields.push(text_member("status", &self.status));
        fields.push((String::from_str("trades"), Json::array(trades)));
        fields.push((String::from_str("commission"), self.commission.to_json()));
        fields.push(text_member("currency", &self.currency));
        fields.push(number_member("payment", &self.payment));
        fields.push(number_member("price", &self.price));
        fields.push(integer_member("quantity", self.quantity));
        fields.push(integer_member("quantityExecuted", self.quantity_executed));
        fields.push(text_member("figi", &self.figi));
        fields.push(text_member("instrumentType", &self.instrument_type));
        fields.push((String::from_str("isMarginCall"), Json::flag(self.is_margin_call)));
        fields.push(date);
        fields.push(text_member("operationType", &self.operation_type));
        let j = Json::object(fields);
        assert(j@->Object_0 =~= Operation::wire(self@).unwrap()->Object_0);
        Some(j)
    }
}

} // verus!
