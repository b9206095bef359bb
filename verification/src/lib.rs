//! Typed request/response mapping for a brokerage's HTTP trading interface.
//!
//! The crate turns trading operations into authenticated HTTP requests and
//! turns response bodies back into typed records. It performs no network
//! traffic itself: every operation is a pair of pure steps, one that plans
//! the request and one that reads the response.
//!
//! - [`router`] maps an operation and its parameters to a path and an
//!   ordered query, and decides whether the account is named.
//! - [`address`] resolves an endpoint against a base address.
//! - [`client`] adds the bearer token and the body, and pairs every plan
//!   with the function that reads its response.
//! - [`envelope`] judges a response by its status and unwraps its payload.
//! - [`wire`], [`model`], [`events`] and [`encode`] hold the records and
//!   their wire shapes.
//! - [`laws`] states what holds of these taken together.

pub mod address;
pub mod client;
pub mod encode;
pub mod envelope;
pub mod error;
pub mod events;
pub mod json;
pub mod laws;
pub mod model;
pub mod number;
pub mod router;
pub mod time;
pub mod vocabulary;
pub mod wire;

pub use client::{Request, RestClient, Step};
pub use error::ClientError;
pub use events::{
    CandleEvent, Error, ErrorEvent, Event, FullEvent, InstrumentInfo, InstrumentInfoEvent,
    OrderBook, OrderBookEvent, PriceQuantity,
};
pub use model::{
    Account, Accounts, Candle, CandleSeries, Candles, CurrencyBalance, CurrencyBalances, Decimal,
    Instrument, Instruments, MoneyAmount, Operation, Operations, Order, Orders, PlacedOrder,
    Portfolio, PositionBalance, PositionBalances, RestOrderBook, RestPriceQuantity, Trade,
};
pub use router::{DEFAULT_ACCOUNT, MAX_ORDERBOOK_DEPTH};
pub use time::Timestamp;
