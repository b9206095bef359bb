//! The records exchanged with the trading interface.
//!
//! Prices, balances and other fractional quantities are kept as the decimal
//! literals that the wire carries, so nothing is rounded on the way through.
//! Every record is built by decoding one response and is not changed
//! afterwards.

use vstd::prelude::*;

use crate::json::{
    flag_at, instant_at, integer_at, number_at, number_or, text_at, text_or, Json, JsonView,
};
use crate::time::Timestamp;
use crate::vocabulary::{
    AccountType, CandleInterval, Currency, InstrumentType, OperationStatus, OperationType,
    OrderStatus, OrderType, TradingStatus,
};
use crate::wire::{list_at, list_field, nested_at, nested_field, views, Wire};

verus! {

/// A fractional quantity, as its decimal literal.
pub type Decimal = String;

/// An amount tagged with its currency.
#[derive(Debug, PartialEq)]
pub struct MoneyAmount {
    pub currency: Currency,
    pub value: Decimal,
}

/// The value of a `MoneyAmount`.
pub struct MoneyAmountView {
    pub currency: Seq<char>,
    pub value: Seq<char>,
}

impl View for MoneyAmount {
    type V = MoneyAmountView;

    open spec fn view(&self) -> MoneyAmountView {
        MoneyAmountView {
            currency: self.currency@,
            value: self.value@,
        }
    }
}

impl Wire for MoneyAmount {
    open spec fn decoded(j: JsonView) -> Option<MoneyAmountView> {
        if text_at(j, "currency"@) is Some
            && number_at(j, "value"@) is Some {
            Some(
                MoneyAmountView {
                    currency: text_at(j, "currency"@).unwrap(),
                    value: number_at(j, "value"@).unwrap(),
                },
            )
        } else {
            None
        }
    }

    fn from_json(j: &Json) -> (r: Option<MoneyAmount>) {
        let currency = j.text_field("currency")?;
        let value = j.number_field("value")?;
        Some(MoneyAmount { currency, value })
    }
}

/// A tradable security. The FIGI is its stable identity.
#[derive(Debug, PartialEq)]
pub struct Instrument {
    pub figi: String,
    pub ticker: String,
    /// Empty where the wire record has none.
    pub isin: String,
    pub name: String,
    /// Zero where the wire record has none.
    pub min_price_increment: Decimal,
    pub lot: i64,
    pub currency: Currency,
    pub instrument_type: InstrumentType,
}

/// The value of an `Instrument`.
pub struct InstrumentView {
    pub figi: Seq<char>,
    pub ticker: Seq<char>,
    pub isin: Seq<char>,
    pub name: Seq<char>,
    pub min_price_increment: Seq<char>,
    pub lot: i64,
    pub currency: Seq<char>,
    pub instrument_type: Seq<char>,
}

impl View for Instrument {
    type V = InstrumentView;

    open spec fn view(&self) -> InstrumentView {
        InstrumentView {
            figi: self.figi@,
            ticker: self.ticker@,
            isin: self.isin@,
            name: self.name@,
            min_price_increment: self.min_price_increment@,
            lot: self.lot,
            currency: self.currency@,
            instrument_type: self.instrument_type@,
        }
    }
}

impl Wire for Instrument {
    open spec fn decoded(j: JsonView) -> Option<InstrumentView> {
        if text_at(j, "figi"@) is Some
            && text_at(j, "ticker"@) is Some
            && text_or(j, "isin"@, ""@) is Some
            && text_at(j, "name"@) is Some
            && number_or(j, "minPriceIncrement"@, "0"@) is Some
            && integer_at(j, "lot"@) is Some
            && text_at(j, "currency"@) is Some
            && text_at(j, "type"@) is Some {
            Some(
                InstrumentView {
                    figi: text_at(j, "figi"@).unwrap(),
                    ticker: text_at(j, "ticker"@).unwrap(),
                    isin: text_or(j, "isin"@, ""@).unwrap(),
                    name: text_at(j, "name"@).unwrap(),
                    min_price_increment: number_or(j, "minPriceIncrement"@, "0"@).unwrap(),
                    lot: integer_at(j, "lot"@).unwrap(),
                    currency: text_at(j, "currency"@).unwrap(),
                    instrument_type: text_at(j, "type"@).unwrap(),
                },
            )
        } else {
            None
        }
    }

    fn from_json(j: &Json) -> (r: Option<Instrument>) {
        let figi = j.text_field("figi")?;
        let ticker = j.text_field("ticker")?;
        let isin = j.text_field_or("isin", "")?;
        let name = j.text_field("name")?;
        let min_price_increment = j.number_field_or("minPriceIncrement", "0")?;
        let lot = j.integer_field("lot")?;
        let currency = j.text_field("currency")?;
        let instrument_type = j.text_field("type")?;
        Some(
            Instrument {
                figi,
                ticker,
                isin,
                name,
                min_price_increment,
                lot,
                currency,
                instrument_type,
            },
        )
    }
}

/// The result of an instrument search, in the order of the response.
#[derive(Debug, PartialEq)]
pub struct Instruments {
    pub instruments: Vec<Instrument>,
}

/// The value of an `Instruments`.
pub struct InstrumentsView {
    pub instruments: Seq<InstrumentView>,
}

impl View for Instruments {
    type V = InstrumentsView;

    open spec fn view(&self) -> InstrumentsView {
        InstrumentsView {
            instruments: views(self.instruments@),
        }
    }
}

impl Wire for Instruments {
    open spec fn decoded(j: JsonView) -> Option<InstrumentsView> {
        if list_at::<Instrument>(j, "instruments"@) is Some {
            Some(
                InstrumentsView {
                    instruments: list_at::<Instrument>(j, "instruments"@).unwrap(),
                },
            )
        } else {
            None
        }
    }

    fn from_json(j: &Json) -> (r: Option<Instruments>) {
        let instruments = list_field::<Instrument>(j, "instruments")?;
        Some(Instruments { instruments })
    }
}

/// A single fill within an operation.
#[derive(Debug, PartialEq)]
pub struct Trade {
    pub id: String,
    pub date_time: Timestamp,
    pub price: Decimal,
    pub quantity: i64,
}

/// The value of a `Trade`.
pub struct TradeView {
    pub id: Seq<char>,
    pub date_time: Timestamp,
    pub price: Seq<char>,
    pub quantity: i64,
}

impl View for Trade {
    type V = TradeView;

    open spec fn view(&self) -> TradeView {
        TradeView {
            id: self.id@,
            date_time: self.date_time,
            price: self.price@,
            quantity: self.quantity,
        }
    }
}

impl Wire for Trade {
    open spec fn decoded(j: JsonView) -> Option<TradeView> {
        if text_at(j, "id"@) is Some
            && instant_at(j, "date"@) is Some
            && number_at(j, "price"@) is Some
            && integer_at(j, "quantity"@) is Some {
            Some(
                TradeView {
                    id: text_at(j, "id"@).unwrap(),
                    date_time: instant_at(j, "date"@).unwrap(),
                    price: number_at(j, "price"@).unwrap(),
                    quantity: integer_at(j, "quantity"@).unwrap(),
                },
            )
        } else {
            None
        }
    }

    fn from_json(j: &Json) -> (r: Option<Trade>) {
        let id = j.text_field("id")?;
        let date_time = j.instant_field("date")?;
        let price = j.number_field("price")?;
        let quantity = j.integer_field("quantity")?;
        Some(Trade { id, date_time, price, quantity })
    }
}

/// A historical ledger event: a trade, a commission, a dividend and so on.
#[derive(Debug, PartialEq)]
pub struct Operation {
    pub id: String,
    pub status: OperationStatus,
    /// Empty for operations that are no fills.
    pub trades: Vec<Trade>,
    pub commission: MoneyAmount,
    pub currency: Currency,
    pub payment: Decimal,
    pub price: Decimal,
    pub quantity: i64,
    pub quantity_executed: i64,
    pub figi: String,
    pub instrument_type: InstrumentType,
    pub is_margin_call: bool,
    pub date_time: Timestamp,
    pub operation_type: OperationType,
}

/// The value of an `Operation`.
pub struct OperationView {
    pub id: Seq<char>,
    pub status: Seq<char>,
    pub trades: Seq<TradeView>,
    pub commission: MoneyAmountView,
    pub currency: Seq<char>,
    pub payment: Seq<char>,
    pub price: Seq<char>,
    pub quantity: i64,
    pub quantity_executed: i64,
    pub figi: Seq<char>,
    pub instrument_type: Seq<char>,
    pub is_margin_call: bool,
    pub date_time: Timestamp,
    pub operation_type: Seq<char>,
}

impl View for Operation {
    type V = OperationView;

    open spec fn view(&self) -> OperationView {
        OperationView {
            id: self.id@,
            status: self.status@,
            trades: views(self.trades@),
            commission: self.commission@,
            currency: self.currency@,
            payment: self.payment@,
            price: self.price@,
            quantity: self.quantity,
            quantity_executed: self.quantity_executed,
            figi: self.figi@,
            instrument_type: self.instrument_type@,
            is_margin_call: self.is_margin_call,
            date_time: self.date_time,
            operation_type: self.operation_type@,
        }
    }
}

impl Wire for Operation {
    open spec fn decoded(j: JsonView) -> Option<OperationView> {
        if text_at(j, "id"@) is Some
            && text_at(j, "status"@) is Some
            && list_at::<Trade>(j, "trades"@) is Some
            && nested_at::<MoneyAmount>(j, "commission"@) is Some
            && text_at(j, "currency"@) is Some
            && number_at(j, "payment"@) is Some
            && number_at(j, "price"@) is Some
            && integer_at(j, "quantity"@) is Some
            && integer_at(j, "quantityExecuted"@) is Some
            && text_at(j, "figi"@) is Some
            && text_at(j, "instrumentType"@) is Some
            && flag_at(j, "isMarginCall"@) is Some
            && instant_at(j, "date"@) is Some
            && text_at(j, "operationType"@) is Some {
            Some(
                OperationView {
                    id: text_at(j, "id"@).unwrap(),
                    status: text_at(j, "status"@).unwrap(),
                    trades: list_at::<Trade>(j, "trades"@).unwrap(),
                    commission: nested_at::<MoneyAmount>(j, "commission"@).unwrap(),
                    currency: text_at(j, "currency"@).unwrap(),
                    payment: number_at(j, "payment"@).unwrap(),
                    price: number_at(j, "price"@).unwrap(),
                    quantity: integer_at(j, "quantity"@).unwrap(),
                    quantity_executed: integer_at(j, "quantityExecuted"@).unwrap(),
                    figi: text_at(j, "figi"@).unwrap(),
                    instrument_type: text_at(j, "instrumentType"@).unwrap(),
                    is_margin_call: flag_at(j, "isMarginCall"@).unwrap(),
                    date_time: instant_at(j, "date"@).unwrap(),
                    operation_type: text_at(j, "operationType"@).unwrap(),
                },
            )
        } else {
            None
        }
    }

    fn from_json(j: &Json) -> (r: Option<Operation>) {
        let id = j.text_field("id")?;
        let status = j.text_field("status")?;
        let trades = list_field::<Trade>(j, "trades")?;
        let commission = nested_field::<MoneyAmount>(j, "commission")?;
        let currency = j.text_field("currency")?;
        let payment = j.number_field("payment")?;
        let price = j.number_field("price")?;
        let quantity = j.integer_field("quantity")?;
        let quantity_executed = j.integer_field("quantityExecuted")?;
        let figi = j.text_field("figi")?;
        let instrument_type = j.text_field("instrumentType")?;
        let is_margin_call = j.flag_field("isMarginCall")?;
        let date_time = j.instant_field("date")?;
        let operation_type = j.text_field("operationType")?;
        Some(
            Operation {
                id,
                status,
                trades,
                commission,
                currency,
                payment,
                price,
                quantity,
                quantity_executed,
                figi,
                instrument_type,
                is_margin_call,
                date_time,
                operation_type,
            },
        )
    }
}

/// A list of ledger events.
#[derive(Debug, PartialEq)]
pub struct Operations {
    pub operations: Vec<Operation>,
}

/// The value of an `Operations`.
pub struct OperationsView {
    pub operations: Seq<OperationView>,
}

impl View for Operations {
    type V = OperationsView;

    open spec fn view(&self) -> OperationsView {
        OperationsView {
            operations: views(self.operations@),
        }
    }
}

impl Wire for Operations {
    open spec fn decoded(j: JsonView) -> Option<OperationsView> {
        if list_at::<Operation>(j, "operations"@) is Some {
            Some(
                OperationsView {
                    operations: list_at::<Operation>(j, "operations"@).unwrap(),
                },
            )
        } else {
            None
        }
    }

    fn from_json(j: &Json) -> (r: Option<Operations>) {
        let operations = list_field::<Operation>(j, "operations")?;
        Some(Operations { operations })
    }
}

/// An order as the server reports it right after submission.
#[derive(Debug, PartialEq)]
pub struct PlacedOrder {
    pub id: String,
    pub operation: OperationType,
    pub status: OrderStatus,
    pub reject_reason: String,
    pub requested_lots: i64,
    pub executed_lots: i64,
    pub commission: MoneyAmount,
    pub message: String,
}

/// The value of a `PlacedOrder`.
pub struct PlacedOrderView {
    pub id: Seq<char>,
    pub operation: Seq<char>,
    pub status: Seq<char>,
    pub reject_reason: Seq<char>,
    pub requested_lots: i64,
    pub executed_lots: i64,
    pub commission: MoneyAmountView,
    pub message: Seq<char>,
}

impl View for PlacedOrder {
    type V = PlacedOrderView;

    open spec fn view(&self) -> PlacedOrderView {
        PlacedOrderView {
            id: self.id@,
            operation: self.operation@,
            status: self.status@,
            reject_reason: self.reject_reason@,
            requested_lots: self.requested_lots,
            executed_lots: self.executed_lots,
            commission: self.commission@,
            message: self.message@,
        }
    }
}

impl Wire for PlacedOrder {
    open spec fn decoded(j: JsonView) -> Option<PlacedOrderView> {
        if text_at(j, "id"@) is Some
            && text_at(j, "operation"@) is Some
            && text_at(j, "status"@) is Some
            && text_at(j, "reject_reason"@) is Some
            && integer_at(j, "requested_lots"@) is Some
            && integer_at(j, "executed_lots"@) is Some
            && nested_at::<MoneyAmount>(j, "commission"@) is Some
            && text_at(j, "message"@) is Some {
            Some(
                PlacedOrderView {
                    id: text_at(j, "id"@).unwrap(),
                    operation: text_at(j, "operation"@).unwrap(),
                    status: text_at(j, "status"@).unwrap(),
                    reject_reason: text_at(j, "reject_reason"@).unwrap(),
                    requested_lots: integer_at(j, "requested_lots"@).unwrap(),
                    executed_lots: integer_at(j, "executed_lots"@).unwrap(),
                    commission: nested_at::<MoneyAmount>(j, "commission"@).unwrap(),
                    message: text_at(j, "message"@).unwrap(),
                },
            )
        } else {
            None
        }
    }

    fn from_json(j: &Json) -> (r: Option<PlacedOrder>) {
        let id = j.text_field("id")?;
        let operation = j.text_field("operation")?;
        let status = j.text_field("status")?;
        let reject_reason = j.text_field("reject_reason")?;
        let requested_lots = j.integer_field("requested_lots")?;
        let executed_lots = j.integer_field("executed_lots")?;
        let commission = nested_field::<MoneyAmount>(j, "commission")?;
        let message = j.text_field("message")?;
        Some(
            PlacedOrder {
                id,
                operation,
                status,
                reject_reason,
                requested_lots,
                executed_lots,
                commission,
                message,
            },
        )
    }
}

/// A live order. Its status is whatever the server says; nothing here
/// derives one status from another.
#[derive(Debug, PartialEq)]
pub struct Order {
    pub id: String,
    pub figi: String,
    pub operation: OperationType,
    pub status: OrderStatus,
    pub requested_lots: i64,
    pub executed_lots: i64,
    pub order_type: OrderType,
    pub price: Decimal,
}

/// The value of an `Order`.
pub struct OrderView {
    pub id: Seq<char>,
    pub figi: Seq<char>,
    pub operation: Seq<char>,
    pub status: Seq<char>,
    pub requested_lots: i64,
    pub executed_lots: i64,
    pub order_type: Seq<char>,
    pub price: Seq<char>,
}

impl View for Order {
    type V = OrderView;

    open spec fn view(&self) -> OrderView {
        OrderView {
            id: self.id@,
            figi: self.figi@,
            operation: self.operation@,
            status: self.status@,
            requested_lots: self.requested_lots,
            executed_lots: self.executed_lots,
            order_type: self.order_type@,
            price: self.price@,
        }
    }
}

impl Wire for Order {
    open spec fn decoded(j: JsonView) -> Option<OrderView> {
        if text_at(j, "id"@) is Some
            && text_at(j, "figi"@) is Some
            && text_at(j, "operation"@) is Some
            && text_at(j, "status"@) is Some
            && integer_at(j, "requested_lots"@) is Some
            && integer_at(j, "executed_lots"@) is Some
            && text_at(j, "type"@) is Some
            && number_at(j, "price"@) is Some {
            Some(
                OrderView {
                    id: text_at(j, "id"@).unwrap(),
                    figi: text_at(j, "figi"@).unwrap(),
                    operation: text_at(j, "operation"@).unwrap(),
                    status: text_at(j, "status"@).unwrap(),
                    requested_lots: integer_at(j, "requested_lots"@).unwrap(),
                    executed_lots: integer_at(j, "executed_lots"@).unwrap(),
                    order_type: text_at(j, "type"@).unwrap(),
                    price: number_at(j, "price"@).unwrap(),
                },
            )
        } else {
            None
        }
    }

    fn from_json(j: &Json) -> (r: Option<Order>) {
        let id = j.text_field("id")?;
        let figi = j.text_field("figi")?;
        let operation = j.text_field("operation")?;
        let status = j.text_field("status")?;
        let requested_lots = j.integer_field("requested_lots")?;
        let executed_lots = j.integer_field("executed_lots")?;
        let order_type = j.text_field("type")?;
        let price = j.number_field("price")?;
        Some(
            Order {
                id,
                figi,
                operation,
                status,
                requested_lots,
                executed_lots,
                order_type,
                price,
            },
        )
    }
}

/// The live orders of an account.
#[derive(Debug, PartialEq)]
pub struct Orders {
    pub orders: Vec<Order>,
}

/// The value of an `Orders`.
pub struct OrdersView {
    pub orders: Seq<OrderView>,
}

impl View for Orders {
    type V = OrdersView;

    open spec fn view(&self) -> OrdersView {
        OrdersView {
            orders: views(self.orders@),
        }
    }
}

impl Wire for Orders {
    open spec fn decoded(j: JsonView) -> Option<OrdersView> {
        if list_at::<Order>(j, "orders"@) is Some {
            Some(
                OrdersView {
                    orders: list_at::<Order>(j, "orders"@).unwrap(),
                },
            )
        } else {
            None
        }
    }

    fn from_json(j: &Json) -> (r: Option<Orders>) {
        let orders = list_field::<Order>(j, "orders")?;
        Some(Orders { orders })
    }
}

/// The cash balance in one currency.
#[derive(Debug, PartialEq)]
pub struct CurrencyBalance {
    pub currency: Currency,
    pub balance: Decimal,
    /// Zero where the wire record has none.
    pub blocked: Decimal,
}

/// The value of a `CurrencyBalance`.
pub struct CurrencyBalanceView {
    pub currency: Seq<char>,
    pub balance: Seq<char>,
    pub blocked: Seq<char>,
}

impl View for CurrencyBalance {
    type V = CurrencyBalanceView;

    open spec fn view(&self) -> CurrencyBalanceView {
        CurrencyBalanceView {
            currency: self.currency@,
            balance: self.balance@,
            blocked: self.blocked@,
        }
    }
}

impl Wire for CurrencyBalance {
    open spec fn decoded(j: JsonView) -> Option<CurrencyBalanceView> {
        if text_at(j, "currency"@) is Some
            && number_at(j, "balance"@) is Some
            && number_or(j, "blocked"@, "0"@) is Some {
            Some(
                CurrencyBalanceView {
                    currency: text_at(j, "currency"@).unwrap(),
                    balance: number_at(j, "balance"@).unwrap(),
                    blocked: number_or(j, "blocked"@, "0"@).unwrap(),
                },
            )
        } else {
            None
        }
    }

    fn from_json(j: &Json) -> (r: Option<CurrencyBalance>) {
        let currency = j.text_field("currency")?;
        let balance = j.number_field("balance")?;
        let blocked = j.number_field_or("blocked", "0")?;
        Some(CurrencyBalance { currency, balance, blocked })
    }
}

/// The cash balances of an account.
#[derive(Debug, PartialEq)]
pub struct CurrencyBalances {
    pub currencies: Vec<CurrencyBalance>,
}

/// The value of a `CurrencyBalances`.
pub struct CurrencyBalancesView {
    pub currencies: Seq<CurrencyBalanceView>,
}

impl View for CurrencyBalances {
    type V = CurrencyBalancesView;

    open spec fn view(&self) -> CurrencyBalancesView {
        CurrencyBalancesView {
            currencies: views(self.currencies@),
        }
    }
}

impl Wire for CurrencyBalances {
    open spec fn decoded(j: JsonView) -> Option<CurrencyBalancesView> {
        if list_at::<CurrencyBalance>(j, "currencies"@) is Some {
            Some(
                CurrencyBalancesView {
                    currencies: list_at::<CurrencyBalance>(j, "currencies"@).unwrap(),
                },
            )
        } else {
            None
        }
    }

    fn from_json(j: &Json) -> (r: Option<CurrencyBalances>) {
        let currencies = list_field::<CurrencyBalance>(j, "currencies")?;
        Some(CurrencyBalances { currencies })
    }
}

/// One held instrument. The balance is negative for a short position.
#[derive(Debug, PartialEq)]
pub struct PositionBalance {
    pub figi: String,
    pub ticker: String,
    pub isin: String,
    pub instrument_type: InstrumentType,
    pub balance: Decimal,
    pub blocked: Decimal,
    pub lots: i64,
    pub expected_yield: MoneyAmount,
    pub average_position_price: MoneyAmount,
    pub average_position_price_no_nkd: MoneyAmount,
    pub name: String,
}

/// The value of a `PositionBalance`.
pub struct PositionBalanceView {
    pub figi: Seq<char>,
    pub ticker: Seq<char>,
    pub isin: Seq<char>,
    pub instrument_type: Seq<char>,
    pub balance: Seq<char>,
    pub blocked: Seq<char>,
    pub lots: i64,
    pub expected_yield: MoneyAmountView,
    pub average_position_price: MoneyAmountView,
    pub average_position_price_no_nkd: MoneyAmountView,
    pub name: Seq<char>,
}

impl View for PositionBalance {
    type V = PositionBalanceView;

    open spec fn view(&self) -> PositionBalanceView {
        PositionBalanceView {
            figi: self.figi@,
            ticker: self.ticker@,
            isin: self.isin@,
            instrument_type: self.instrument_type@,
            balance: self.balance@,
            blocked: self.blocked@,
            lots: self.lots,
            expected_yield: self.expected_yield@,
            average_position_price: self.average_position_price@,
            average_position_price_no_nkd: self.average_position_price_no_nkd@,
            name: self.name@,
        }
    }
}

impl Wire for PositionBalance {
    open spec fn decoded(j: JsonView) -> Option<PositionBalanceView> {
        if text_at(j, "figi"@) is Some
            && text_at(j, "ticker"@) is Some
            && text_at(j, "isin"@) is Some
            && text_at(j, "instrument_type"@) is Some
            && number_at(j, "balance"@) is Some
            && number_at(j, "blocked"@) is Some
            && integer_at(j, "lots"@) is Some
            && nested_at::<MoneyAmount>(j, "expected_yield"@) is Some
            && nested_at::<MoneyAmount>(j, "average_position_price"@) is Some
            && nested_at::<MoneyAmount>(j, "average_position_price_no_nkd"@) is Some
            && text_at(j, "name"@) is Some {
            Some(
                PositionBalanceView {
                    figi: text_at(j, "figi"@).unwrap(),
                    ticker: text_at(j, "ticker"@).unwrap(),
                    isin: text_at(j, "isin"@).unwrap(),
                    instrument_type: text_at(j, "instrument_type"@).unwrap(),
                    balance: number_at(j, "balance"@).unwrap(),
                    blocked: number_at(j, "blocked"@).unwrap(),
                    lots: integer_at(j, "lots"@).unwrap(),
                    expected_yield: nested_at::<MoneyAmount>(j, "expected_yield"@).unwrap(),
                    average_position_price: nested_at::<MoneyAmount>(j, "average_position_price"@).unwrap(),
                    average_position_price_no_nkd: nested_at::<MoneyAmount>(j, "average_position_price_no_nkd"@).unwrap(),
                    name: text_at(j, "name"@).unwrap(),
                },
            )
        } else {
            None
        }
    }

    fn from_json(j: &Json) -> (r: Option<PositionBalance>) {
        let figi = j.text_field("figi")?;
        let ticker = j.text_field("ticker")?;
        let isin = j.text_field("isin")?;
        let instrument_type = j.text_field("instrument_type")?;
        let balance = j.number_field("balance")?;
        let blocked = j.number_field("blocked")?;
        let lots = j.integer_field("lots")?;
        let expected_yield = nested_field::<MoneyAmount>(j, "expected_yield")?;
        let average_position_price = nested_field::<MoneyAmount>(j, "average_position_price")?;
        let average_position_price_no_nkd = nested_field::<MoneyAmount>(j, "average_position_price_no_nkd")?;
        let name = j.text_field("name")?;
        Some(
            PositionBalance {
                figi,
                ticker,
                isin,
                instrument_type,
                balance,
                blocked,
                lots,
                expected_yield,
                average_position_price,
                average_position_price_no_nkd,
                name,
            },
        )
    }
}

/// The held instruments of an account.
#[derive(Debug, PartialEq)]
pub struct PositionBalances {
    pub positions: Vec<PositionBalance>,
}

/// The value of a `PositionBalances`.
pub struct PositionBalancesView {
    pub positions: Seq<PositionBalanceView>,
}

impl View for PositionBalances {
    type V = PositionBalancesView;

    open spec fn view(&self) -> PositionBalancesView {
        PositionBalancesView {
            positions: views(self.positions@),
        }
    }
}

impl Wire for PositionBalances {
    open spec fn decoded(j: JsonView) -> Option<PositionBalancesView> {
        if list_at::<PositionBalance>(j, "positions"@) is Some {
            Some(
                PositionBalancesView {
                    positions: list_at::<PositionBalance>(j, "positions"@).unwrap(),
                },
            )
        } else {
            None
        }
    }

    fn from_json(j: &Json) -> (r: Option<PositionBalances>) {
        let positions = list_field::<PositionBalance>(j, "positions")?;
        Some(PositionBalances { positions })
    }
}

/// One level of an order-book ladder.
#[derive(Debug, PartialEq)]
pub struct RestPriceQuantity {
    pub price: Decimal,
    pub quantity: Decimal,
}

/// The value of a `RestPriceQuantity`.
pub struct RestPriceQuantityView {
    pub price: Seq<char>,
    pub quantity: Seq<char>,
}

impl View for RestPriceQuantity {
    type V = RestPriceQuantityView;

    open spec fn view(&self) -> RestPriceQuantityView {
        RestPriceQuantityView {
            price: self.price@,
            quantity: self.quantity@,
        }
    }
}

impl Wire for RestPriceQuantity {
    open spec fn decoded(j: JsonView) -> Option<RestPriceQuantityView> {
        if number_at(j, "price"@) is Some
            && number_at(j, "quantity"@) is Some {
            Some(
                RestPriceQuantityView {
                    price: number_at(j, "price"@).unwrap(),
                    quantity: number_at(j, "quantity"@).unwrap(),
                },
            )
        } else {
            None
        }
    }

    fn from_json(j: &Json) -> (r: Option<RestPriceQuantity>) {
        let price = j.number_field("price")?;
        let quantity = j.number_field("quantity")?;
        Some(RestPriceQuantity { price, quantity })
    }
}

/// A depth snapshot of one instrument.
#[derive(Debug, PartialEq)]
pub struct RestOrderBook {
    pub figi: String,
    pub depth: i64,
    pub bids: Vec<RestPriceQuantity>,
    pub asks: Vec<RestPriceQuantity>,
    pub trade_status: TradingStatus,
    pub min_price_increment: Decimal,
    pub last_price: Decimal,
    pub close_price: Decimal,
    pub limit_up: Decimal,
    pub limit_down: Decimal,
    pub face_value: Decimal,
}

/// The value of a `RestOrderBook`.
pub struct RestOrderBookView {
    pub figi: Seq<char>,
    pub depth: i64,
    pub bids: Seq<RestPriceQuantityView>,
    pub asks: Seq<RestPriceQuantityView>,
    pub trade_status: Seq<char>,
    pub min_price_increment: Seq<char>,
    pub last_price: Seq<char>,
    pub close_price: Seq<char>,
    pub limit_up: Seq<char>,
    pub limit_down: Seq<char>,
    pub face_value: Seq<char>,
}

impl View for RestOrderBook {
    type V = RestOrderBookView;

    open spec fn view(&self) -> RestOrderBookView {
        RestOrderBookView {
            figi: self.figi@,
            depth: self.depth,
            bids: views(self.bids@),
            asks: views(self.asks@),
            trade_status: self.trade_status@,
            min_price_increment: self.min_price_increment@,
            last_price: self.last_price@,
            close_price: self.close_price@,
            limit_up: self.limit_up@,
            limit_down: self.limit_down@,
            face_value: self.face_value@,
        }
    }
}

impl Wire for RestOrderBook {
    open spec fn decoded(j: JsonView) -> Option<RestOrderBookView> {
        if text_at(j, "figi"@) is Some
            && integer_at(j, "depth"@) is Some
            && list_at::<RestPriceQuantity>(j, "bids"@) is Some
            && list_at::<RestPriceQuantity>(j, "asks"@) is Some
            && text_at(j, "trade_status"@) is Some
            && number_at(j, "min_price_increment"@) is Some
            && number_at(j, "last_price"@) is Some
            && number_at(j, "close_price"@) is Some
            && number_at(j, "limit_up"@) is Some
            && number_at(j, "limit_down"@) is Some
            && number_at(j, "face_value"@) is Some {
            Some(
                RestOrderBookView {
                    figi: text_at(j, "figi"@).unwrap(),
                    depth: integer_at(j, "depth"@).unwrap(),
                    bids: list_at::<RestPriceQuantity>(j, "bids"@).unwrap(),
                    asks: list_at::<RestPriceQuantity>(j, "asks"@).unwrap(),
                    trade_status: text_at(j, "trade_status"@).unwrap(),
                    min_price_increment: number_at(j, "min_price_increment"@).unwrap(),
                    last_price: number_at(j, "last_price"@).unwrap(),
                    close_price: number_at(j, "close_price"@).unwrap(),
                    limit_up: number_at(j, "limit_up"@).unwrap(),
                    limit_down: number_at(j, "limit_down"@).unwrap(),
                    face_value: number_at(j, "face_value"@).unwrap(),
                },
            )
        } else {
            None
        }
    }

    fn from_json(j: &Json) -> (r: Option<RestOrderBook>) {
        let figi = j.text_field("figi")?;
        let depth = j.integer_field("depth")?;
        let bids = list_field::<RestPriceQuantity>(j, "bids")?;
        let asks = list_field::<RestPriceQuantity>(j, "asks")?;
        let trade_status = j.text_field("trade_status")?;
        let min_price_increment = j.number_field("min_price_increment")?;
        let last_price = j.number_field("last_price")?;
        let close_price = j.number_field("close_price")?;
        let limit_up = j.number_field("limit_up")?;
        let limit_down = j.number_field("limit_down")?;
        let face_value = j.number_field("face_value")?;
        Some(
            RestOrderBook {
                figi,
                depth,
                bids,
                asks,
                trade_status,
                min_price_increment,
                last_price,
                close_price,
                limit_up,
                limit_down,
                face_value,
            },
        )
    }
}

/// A brokerage account handle.
#[derive(Debug, PartialEq)]
pub struct Account {
    pub account_type: AccountType,
    pub id: String,
}

/// The value of an `Account`.
pub struct AccountView {
    pub account_type: Seq<char>,
    pub id: Seq<char>,
}

impl View for Account {
    type V = AccountView;

    open spec fn view(&self) -> AccountView {
        AccountView {
            account_type: self.account_type@,
            id: self.id@,
        }
    }
}

impl Wire for Account {
    open spec fn decoded(j: JsonView) -> Option<AccountView> {
        if text_at(j, "type"@) is Some
            && text_at(j, "id"@) is Some {
            Some(
                AccountView {
                    account_type: text_at(j, "type"@).unwrap(),
                    id: text_at(j, "id"@).unwrap(),
                },
            )
        } else {
            None
        }
    }

    fn from_json(j: &Json) -> (r: Option<Account>) {
        let account_type = j.text_field("type")?;
        let id = j.text_field("id")?;
        Some(Account { account_type, id })
    }
}

/// The accounts of the caller.
#[derive(Debug, PartialEq)]
pub struct Accounts {
    pub accounts: Vec<Account>,
}

/// The value of an `Accounts`.
pub struct AccountsView {
    pub accounts: Seq<AccountView>,
}

impl View for Accounts {
    type V = AccountsView;

    open spec fn view(&self) -> AccountsView {
        AccountsView {
            accounts: views(self.accounts@),
        }
    }
}

impl Wire for Accounts {
    open spec fn decoded(j: JsonView) -> Option<AccountsView> {
        if list_at::<Account>(j, "accounts"@) is Some {
            Some(
                AccountsView {
                    accounts: list_at::<Account>(j, "accounts"@).unwrap(),
                },
            )
        } else {
            None
        }
    }

    fn from_json(j: &Json) -> (r: Option<Accounts>) {
        let accounts = list_field::<Account>(j, "accounts")?;
        Some(Accounts { accounts })
    }
}

/// One bar of open, close, high and low prices and traded volume.
#[derive(Debug, PartialEq)]
pub struct Candle {
    pub figi: String,
    pub interval: CandleInterval,
    pub open_price: Decimal,
    pub close_price: Decimal,
    pub high_price: Decimal,
    pub low_price: Decimal,
    pub volume: Decimal,
    pub ts: Timestamp,
}

/// The value of a `Candle`.
pub struct CandleView {
    pub figi: Seq<char>,
    pub interval: Seq<char>,
    pub open_price: Seq<char>,
    pub close_price: Seq<char>,
    pub high_price: Seq<char>,
    pub low_price: Seq<char>,
    pub volume: Seq<char>,
    pub ts: Timestamp,
}

impl View for Candle {
    type V = CandleView;

    open spec fn view(&self) -> CandleView {
        CandleView {
            figi: self.figi@,
            interval: self.interval@,
            open_price: self.open_price@,
            close_price: self.close_price@,
            high_price: self.high_price@,
            low_price: self.low_price@,
            volume: self.volume@,
            ts: self.ts,
        }
    }
}

impl Wire for Candle {
    open spec fn decoded(j: JsonView) -> Option<CandleView> {
        if text_at(j, "figi"@) is Some
            && text_at(j, "interval"@) is Some
            && number_at(j, "o"@) is Some
            && number_at(j, "c"@) is Some
            && number_at(j, "h"@) is Some
            && number_at(j, "l"@) is Some
            && number_at(j, "v"@) is Some
            && instant_at(j, "time"@) is Some {
            Some(
                CandleView {
                    figi: text_at(j, "figi"@).unwrap(),
                    interval: text_at(j, "interval"@).unwrap(),
                    open_price: number_at(j, "o"@).unwrap(),
                    close_price: number_at(j, "c"@).unwrap(),
                    high_price: number_at(j, "h"@).unwrap(),
                    low_price: number_at(j, "l"@).unwrap(),
                    volume: number_at(j, "v"@).unwrap(),
                    ts: instant_at(j, "time"@).unwrap(),
                },
            )
        } else {
            None
        }
    }

    fn from_json(j: &Json) -> (r: Option<Candle>) {
        let figi = j.text_field("figi")?;
        let interval = j.text_field("interval")?;
        let open_price = j.number_field("o")?;
        let close_price = j.number_field("c")?;
        let high_price = j.number_field("h")?;
        let low_price = j.number_field("l")?;
        let volume = j.number_field("v")?;
        let ts = j.instant_field("time")?;
        Some(Candle { figi, interval, open_price, close_price, high_price, low_price, volume, ts })
    }
}

/// A list of bars.
#[derive(Debug, PartialEq)]
pub struct Candles {
    pub candles: Vec<Candle>,
}

/// The value of a `Candles`.
pub struct CandlesView {
    pub candles: Seq<CandleView>,
}

impl View for Candles {
    type V = CandlesView;

    open spec fn view(&self) -> CandlesView {
        CandlesView {
            candles: views(self.candles@),
        }
    }
}

impl Wire for Candles {
    open spec fn decoded(j: JsonView) -> Option<CandlesView> {
        if list_at::<Candle>(j, "candles"@) is Some {
            Some(
                CandlesView {
                    candles: list_at::<Candle>(j, "candles"@).unwrap(),
                },
            )
        } else {
            None
        }
    }

    fn from_json(j: &Json) -> (r: Option<Candles>) {
        let candles = list_field::<Candle>(j, "candles")?;
        Some(Candles { candles })
    }
}

/// The bars of one instrument at one interval, as a candle query returns them.
#[derive(Debug, PartialEq)]
pub struct CandleSeries {
    pub figi: String,
    pub interval: CandleInterval,
    pub candles: Vec<Candle>,
}

/// The value of a `CandleSeries`.
pub struct CandleSeriesView {
    pub figi: Seq<char>,
    pub interval: Seq<char>,
    pub candles: Seq<CandleView>,
}

impl View for CandleSeries {
    type V = CandleSeriesView;

    open spec fn view(&self) -> CandleSeriesView {
        CandleSeriesView {
            figi: self.figi@,
            interval: self.interval@,
            candles: views(self.candles@),
        }
    }
}

impl Wire for CandleSeries {
    open spec fn decoded(j: JsonView) -> Option<CandleSeriesView> {
        if text_at(j, "figi"@) is Some
            && text_at(j, "interval"@) is Some
            && list_at::<Candle>(j, "candles"@) is Some {
            Some(
                CandleSeriesView {
                    figi: text_at(j, "figi"@).unwrap(),
                    interval: text_at(j, "interval"@).unwrap(),
                    candles: list_at::<Candle>(j, "candles"@).unwrap(),
                },
            )
        } else {
            None
        }
    }

    fn from_json(j: &Json) -> (r: Option<CandleSeries>) {
        let figi = j.text_field("figi")?;
        let interval = j.text_field("interval")?;
        let candles = list_field::<Candle>(j, "candles")?;
        Some(CandleSeries { figi, interval, candles })
    }
}

/// The holdings of an account: positions and cash. The two halves come from
/// two separate responses and need not describe the same moment.
#[derive(Debug, PartialEq)]
pub struct Portfolio {
    pub positions: PositionBalances,
    pub currencies: CurrencyBalances,
}

/// The value of a `Portfolio`.
pub struct PortfolioView {
    pub positions: PositionBalancesView,
    pub currencies: CurrencyBalancesView,
}

impl View for Portfolio {
    type V = PortfolioView;

    open spec fn view(&self) -> PortfolioView {
        PortfolioView { positions: self.positions@, currencies: self.currencies@ }
    }
}

} // verus!
