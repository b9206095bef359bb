//! The shapes of streamed market-data messages.

use vstd::prelude::*;

use crate::json::{instant_at, integer_at, number_at, text_at, Json, JsonView};
use crate::model::{Candle, CandleView, Decimal};
use crate::time::Timestamp;
use crate::vocabulary::TradingStatus;
use crate::wire::{list_at, list_field, nested_at, nested_field, views, Wire};

verus! {

/// The name that every streamed message carries.
#[derive(Debug, PartialEq)]
pub struct Event {
    pub name: String,
}

/// The value of an `Event`.
pub struct EventView {
    pub name: Seq<char>,
}

impl View for Event {
    type V = EventView;

    open spec fn view(&self) -> EventView {
        EventView {
            name: self.name@,
        }
    }
}

impl Wire for Event {
    open spec fn decoded(j: JsonView) -> Option<EventView> {
        if text_at(j, "event"@) is Some {
            Some(
                EventView {
                    name: text_at(j, "event"@).unwrap(),
                },
            )
        } else {
            None
        }
    }

    fn from_json(j: &Json) -> (r: Option<Event>) {
        let name = j.text_field("event")?;
        Some(Event { name })
    }
}

/// The name and the time of a streamed message.
#[derive(Debug, PartialEq)]
pub struct FullEvent {
    pub name: String,
    pub time: Timestamp,
}

/// The value of a `FullEvent`.
pub struct FullEventView {
    pub name: Seq<char>,
    pub time: Timestamp,
}

impl View for FullEvent {
    type V = FullEventView;

    open spec fn view(&self) -> FullEventView {
        FullEventView {
            name: self.name@,
            time: self.time,
        }
    }
}

impl Wire for FullEvent {
    open spec fn decoded(j: JsonView) -> Option<FullEventView> {
        if text_at(j, "event"@) is Some
            && instant_at(j, "time"@) is Some {
            Some(
                FullEventView {
                    name: text_at(j, "event"@).unwrap(),
                    time: instant_at(j, "time"@).unwrap(),
                },
            )
        } else {
            None
        }
    }

    fn from_json(j: &Json) -> (r: Option<FullEvent>) {
        let name = j.text_field("event")?;
        let time = j.instant_field("time")?;
        Some(FullEvent { name, time })
    }
}

/// One level of a streamed order-book ladder.
#[derive(Debug, PartialEq)]
pub struct PriceQuantity {
    pub price: Decimal,
    pub quantity: Decimal,
}

/// The value of a `PriceQuantity`.
pub struct PriceQuantityView {
    pub price: Seq<char>,
    pub quantity: Seq<char>,
}

impl View for PriceQuantity {
    type V = PriceQuantityView;

    open spec fn view(&self) -> PriceQuantityView {
        PriceQuantityView {
            price: self.price@,
            quantity: self.quantity@,
        }
    }
}

impl Wire for PriceQuantity {
    open spec fn decoded(j: JsonView) -> Option<PriceQuantityView> {
        if number_at(j, "price"@) is Some
            && number_at(j, "quantity"@) is Some {
            Some(
                PriceQuantityView {
                    price: number_at(j, "price"@).unwrap(),
                    quantity: number_at(j, "quantity"@).unwrap(),
                },
            )
        } else {
            None
        }
    }

    fn from_json(j: &Json) -> (r: Option<PriceQuantity>) {
        let price = j.number_field("price")?;
        let quantity = j.number_field("quantity")?;
        Some(PriceQuantity { price, quantity })
    }
}

/// A streamed depth snapshot.
#[derive(Debug, PartialEq)]
pub struct OrderBook {
    pub figi: String,
    pub depth: i64,
    pub bids: Vec<PriceQuantity>,
    pub asks: Vec<PriceQuantity>,
}

/// The value of an `OrderBook`.
pub struct OrderBookView {
    pub figi: Seq<char>,
    pub depth: i64,
    pub bids: Seq<PriceQuantityView>,
    pub asks: Seq<PriceQuantityView>,
}

impl View for OrderBook {
    type V = OrderBookView;

    open spec fn view(&self) -> OrderBookView {
        OrderBookView {
            figi: self.figi@,
            depth: self.depth,
            bids: views(self.bids@),
            asks: views(self.asks@),
        }
    }
}

impl Wire for OrderBook {
    open spec fn decoded(j: JsonView) -> Option<OrderBookView> {
        if text_at(j, "figi"@) is Some
            && integer_at(j, "depth"@) is Some
            && list_at::<PriceQuantity>(j, "bids"@) is Some
            && list_at::<PriceQuantity>(j, "asks"@) is Some {
            Some(
                OrderBookView {
                    figi: text_at(j, "figi"@).unwrap(),
                    depth: integer_at(j, "depth"@).unwrap(),
                    bids: list_at::<PriceQuantity>(j, "bids"@).unwrap(),
                    asks: list_at::<PriceQuantity>(j, "asks"@).unwrap(),
                },
            )
        } else {
            None
        }
    }

    fn from_json(j: &Json) -> (r: Option<OrderBook>) {
        let figi = j.text_field("figi")?;
        let depth = j.integer_field("depth")?;
        let bids = list_field::<PriceQuantity>(j, "bids")?;
        let asks = list_field::<PriceQuantity>(j, "asks")?;
        Some(OrderBook { figi, depth, bids, asks })
    }
}

/// Streamed trading parameters of an instrument.
#[derive(Debug, PartialEq)]
pub struct InstrumentInfo {
    pub figi: String,
    pub trade_status: TradingStatus,
    pub min_price_increment: Decimal,
    pub lot: Decimal,
    /// Never read from the wire: always zero after decoding.
    pub accrued_interest: Decimal,
    /// Never read from the wire: always zero after decoding.
    pub limit_up: Decimal,
    /// Never read from the wire: always zero after decoding.
    pub limit_down: Decimal,
}

/// The value of an `InstrumentInfo`.
pub struct InstrumentInfoView {
    pub figi: Seq<char>,
    pub trade_status: Seq<char>,
    pub min_price_increment: Seq<char>,
    pub lot: Seq<char>,
    pub accrued_interest: Seq<char>,
    pub limit_up: Seq<char>,
    pub limit_down: Seq<char>,
}

impl View for InstrumentInfo {
    type V = InstrumentInfoView;

    open spec fn view(&self) -> InstrumentInfoView {
        InstrumentInfoView {
            figi: self.figi@,
            trade_status: self.trade_status@,
            min_price_increment: self.min_price_increment@,
            lot: self.lot@,
            accrued_interest: self.accrued_interest@,
            limit_up: self.limit_up@,
            limit_down: self.limit_down@,
        }
    }
}

impl Wire for InstrumentInfo {
    open spec fn decoded(j: JsonView) -> Option<InstrumentInfoView> {
        if text_at(j, "figi"@) is Some
            && text_at(j, "trade_status"@) is Some
            && number_at(j, "min_price_increment"@) is Some
            && number_at(j, "lot"@) is Some {
            Some(
                InstrumentInfoView {
                    figi: text_at(j, "figi"@).unwrap(),
                    trade_status: text_at(j, "trade_status"@).unwrap(),
                    min_price_increment: number_at(j, "min_price_increment"@).unwrap(),
                    lot: number_at(j, "lot"@).unwrap(),
                    accrued_interest: "0"@,
                    limit_up: "0"@,
                    limit_down: "0"@,
                },
            )
        } else {
            None
        }
    }

    fn from_json(j: &Json) -> (r: Option<InstrumentInfo>) {
        let figi = j.text_field("figi")?;
        let trade_status = j.text_field("trade_status")?;
        let min_price_increment = j.number_field("min_price_increment")?;
        let lot = j.number_field("lot")?;
        let accrued_interest = String::from_str("0");
        let limit_up = String::from_str("0");
        let limit_down = String::from_str("0");
        Some(
            InstrumentInfo {
                figi,
                trade_status,
                min_price_increment,
                lot,
                accrued_interest,
                limit_up,
                limit_down,
            },
        )
    }
}

/// A streamed error notice.
#[derive(Debug, PartialEq)]
pub struct Error {
    pub request_id: String,
    /// Never read from the wire: always empty after decoding.
    pub error: String,
}

/// The value of an `Error`.
pub struct ErrorView {
    pub request_id: Seq<char>,
    pub error: Seq<char>,
}

impl View for Error {
    type V = ErrorView;

    open spec fn view(&self) -> ErrorView {
        ErrorView {
            request_id: self.request_id@,
            error: self.error@,
        }
    }
}

impl Wire for Error {
    open spec fn decoded(j: JsonView) -> Option<ErrorView> {
        if text_at(j, "request_id"@) is Some {
            Some(
                ErrorView {
                    request_id: text_at(j, "request_id"@).unwrap(),
                    error: Seq::<char>::empty(),
                },
            )
        } else {
            None
        }
    }

    fn from_json(j: &Json) -> (r: Option<Error>) {
        let request_id = j.text_field("request_id")?;
        let error = String::new();
        Some(Error { request_id, error })
    }
}

/// A streamed candle.
#[derive(Debug, PartialEq)]
pub struct CandleEvent {
    pub full_event: FullEvent,
    pub candle: Candle,
}

/// The value of a `CandleEvent`.
pub struct CandleEventView {
    pub full_event: FullEventView,
    pub candle: CandleView,
}

impl View for CandleEvent {
    type V = CandleEventView;

    open spec fn view(&self) -> CandleEventView {
        CandleEventView {
            full_event: self.full_event@,
            candle: self.candle@,
        }
    }
}

impl Wire for CandleEvent {
    open spec fn decoded(j: JsonView) -> Option<CandleEventView> {
        if nested_at::<FullEvent>(j, "full_event"@) is Some
            && nested_at::<Candle>(j, "payload"@) is Some {
            Some(
                CandleEventView {
                    full_event: nested_at::<FullEvent>(j, "full_event"@).unwrap(),
                    candle: nested_at::<Candle>(j, "payload"@).unwrap(),
                },
            )
        } else {
            None
        }
    }

    fn from_json(j: &Json) -> (r: Option<CandleEvent>) {
        let full_event = nested_field::<FullEvent>(j, "full_event")?;
        let candle = nested_field::<Candle>(j, "payload")?;
        Some(CandleEvent { full_event, candle })
    }
}

/// A streamed order book.
#[derive(Debug, PartialEq)]
pub struct OrderBookEvent {
    pub full_event: FullEvent,
    pub order_book: OrderBook,
}

/// The value of an `OrderBookEvent`.
pub struct OrderBookEventView {
    pub full_event: FullEventView,
    pub order_book: OrderBookView,
}

impl View for OrderBookEvent {
    type V = OrderBookEventView;

    open spec fn view(&self) -> OrderBookEventView {
        OrderBookEventView {
            full_event: self.full_event@,
            order_book: self.order_book@,
        }
    }
}

impl Wire for OrderBookEvent {
    open spec fn decoded(j: JsonView) -> Option<OrderBookEventView> {
        if nested_at::<FullEvent>(j, "full_event"@) is Some
            && nested_at::<OrderBook>(j, "payload"@) is Some {
            Some(
                OrderBookEventView {
                    full_event: nested_at::<FullEvent>(j, "full_event"@).unwrap(),
                    order_book: nested_at::<OrderBook>(j, "payload"@).unwrap(),
                },
            )
        } else {
            None
        }
    }

    fn from_json(j: &Json) -> (r: Option<OrderBookEvent>) {
        let full_event = nested_field::<FullEvent>(j, "full_event")?;
        let order_book = nested_field::<OrderBook>(j, "payload")?;
        Some(OrderBookEvent { full_event, order_book })
    }
}

/// Streamed instrument parameters.
#[derive(Debug, PartialEq)]
pub struct InstrumentInfoEvent {
    pub full_event: FullEvent,
    pub info: InstrumentInfo,
}

/// The value of an `InstrumentInfoEvent`.
pub struct InstrumentInfoEventView {
    pub full_event: FullEventView,
    pub info: InstrumentInfoView,
}

impl View for InstrumentInfoEvent {
    type V = InstrumentInfoEventView;

    open spec fn view(&self) -> InstrumentInfoEventView {
        InstrumentInfoEventView {
            full_event: self.full_event@,
            info: self.info@,
        }
    }
}

impl Wire for InstrumentInfoEvent {
    open spec fn decoded(j: JsonView) -> Option<InstrumentInfoEventView> {
        if nested_at::<FullEvent>(j, "full_event"@) is Some
            && nested_at::<InstrumentInfo>(j, "payload"@) is Some {
            Some(
                InstrumentInfoEventView {
                    full_event: nested_at::<FullEvent>(j, "full_event"@).unwrap(),
                    info: nested_at::<InstrumentInfo>(j, "payload"@).unwrap(),
                },
            )
        } else {
            None
        }
    }

    fn from_json(j: &Json) -> (r: Option<InstrumentInfoEvent>) {
        let full_event = nested_field::<FullEvent>(j, "full_event")?;
        let info = nested_field::<InstrumentInfo>(j, "payload")?;
        Some(InstrumentInfoEvent { full_event, info })
    }
}

/// A streamed error.
#[derive(Debug, PartialEq)]
pub struct ErrorEvent {
    pub full_event: FullEvent,
    pub error: Error,
}

/// The value of an `ErrorEvent`.
pub struct ErrorEventView {
    pub full_event: FullEventView,
    pub error: ErrorView,
}

impl View for ErrorEvent {
    type V = ErrorEventView;

    open spec fn view(&self) -> ErrorEventView {
        ErrorEventView {
            full_event: self.full_event@,
            error: self.error@,
        }
    }
}

impl Wire for ErrorEvent {
    open spec fn decoded(j: JsonView) -> Option<ErrorEventView> {
        if nested_at::<FullEvent>(j, "full_event"@) is Some
            && nested_at::<Error>(j, "payload"@) is Some {
            Some(
                ErrorEventView {
                    full_event: nested_at::<FullEvent>(j, "full_event"@).unwrap(),
                    error: nested_at::<Error>(j, "payload"@).unwrap(),
                },
            )
        } else {
            None
        }
    }

    fn from_json(j: &Json) -> (r: Option<ErrorEvent>) {
        let full_event = nested_field::<FullEvent>(j, "full_event")?;
        let error = nested_field::<Error>(j, "payload")?;
        Some(ErrorEvent { full_event, error })
    }
}

} // verus!
