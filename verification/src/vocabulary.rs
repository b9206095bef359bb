//! The fixed words of the wire: currency codes, statuses and the like.
//!
//! The server is free to send words that are not listed here; a record keeps
//! whatever word it was sent.

use vstd::prelude::*;

verus! {

/// A currency code.
pub type Currency = String;

pub const RUB: &'static str = "RUB";

pub const USD: &'static str = "USD";

pub const EUR: &'static str = "EUR";

pub const TRY: &'static str = "TRY";

pub const JPY: &'static str = "JPY";

pub const CNY: &'static str = "CNY";

pub const CHF: &'static str = "CHF";

pub const GBP: &'static str = "GBP";

pub const HKD: &'static str = "HKD";

/// The kind of a ledger event, or the side of an order.
pub type OperationType = String;

pub const OPERATION_TYPE_BUY: &'static str = "Buy";

pub const OPERATION_TYPE_SELL: &'static str = "Sell";

pub const OPERATION_TYPE_BROKER_COMMISSION: &'static str = "BrokerCommission";

pub const OPERATION_TYPE_EXCHANGE_COMMISSION: &'static str = "ExchangeCommission";

pub const OPERATION_TYPE_SERVICE_COMMISSION: &'static str = "ServiceCommission";

pub const OPERATION_TYPE_MARGIN_COMMISSION: &'static str = "MarginCommission";

pub const OPERATION_TYPE_OTHER_COMMISSION: &'static str = "OtherCommission";

pub const OPERATION_TYPE_PAY_IN: &'static str = "PayIn";

pub const OPERATION_TYPE_PAY_OUT: &'static str = "PayOut";

pub const OPERATION_TYPE_TAX: &'static str = "Tax";

pub const OPERATION_TYPE_TAX_LUCRE: &'static str = "TaxLucre";

pub const OPERATION_TYPE_TAX_DIVIDEND: &'static str = "TaxDividend";

pub const OPERATION_TYPE_TAX_COUPON: &'static str = "TaxCoupon";

pub const OPERATION_TYPE_TAX_BACK: &'static str = "TaxBack";

pub const OPERATION_TYPE_REPAYMENT: &'static str = "Repayment";

pub const OPERATION_TYPE_PART_REPAYMENT: &'static str = "PartRepayment";

pub const OPERATION_TYPE_COUPON: &'static str = "Coupon";

pub const OPERATION_TYPE_DIVIDEND: &'static str = "Dividend";

pub const OPERATION_TYPE_SECURITY_IN: &'static str = "SecurityIn";

pub const OPERATION_TYPE_SECURITY_OUT: &'static str = "SecurityOut";

pub const OPERATION_TYPE_BUY_CARD: &'static str = "BuyCard";

/// The status of an order, as the server reports it.
pub type OrderStatus = String;

pub const ORDER_STATUS_NEW: &'static str = "New";

pub const ORDER_STATUS_PARTIALLY_FILL: &'static str = "PartiallyFill";

pub const ORDER_STATUS_FILL: &'static str = "Fill";

pub const ORDER_STATUS_CANCELLED: &'static str = "Cancelled";

pub const ORDER_STATUS_REPLACED: &'static str = "Replaced";

pub const ORDER_STATUS_PENDING_CANCEL: &'static str = "PendingCancel";

pub const ORDER_STATUS_REJECTED: &'static str = "Rejected";

pub const ORDER_STATUS_PENDING_REPLACE: &'static str = "PendingReplace";

pub const ORDER_STATUS_PENDING_NEW: &'static str = "PendingNew";

/// The status of a ledger event.
pub type OperationStatus = String;

pub const OPERATION_STATUS_DONE: &'static str = "Done";

pub const OPERATION_STATUS_DECLINE: &'static str = "Decline";

pub const OPERATION_STATUS_PROGRESS: &'static str = "Progress";

/// The kind of an instrument.
pub type InstrumentType = String;

pub const INSTRUMENT_TYPE_STOCK: &'static str = "Stock";

pub const INSTRUMENT_TYPE_CURRENCY: &'static str = "currency";

pub const INSTRUMENT_TYPE_BOND: &'static str = "Bond";

pub const INSTRUMENT_TYPE_ETF: &'static str = "Etf";

/// The kind of an order.
pub type OrderType = String;

pub const ORDER_TYPE_LIMIT: &'static str = "Limit";

pub const ORDER_TYPE_MARKET: &'static str = "Market";

/// The kind of a brokerage account.
pub type AccountType = String;

pub const ACCOUNT_TINKOFF: &'static str = "Tinkoff";

pub const ACCOUNT_TINKOFF_IIS: &'static str = "TinkoffIis";

/// The time span of one bar.
pub type CandleInterval = String;

pub const CANDLE_INTERVAL_1MIN: &'static str = "1min";

pub const CANDLE_INTERVAL_2MIN: &'static str = "2min";

pub const CANDLE_INTERVAL_3MIN: &'static str = "3min";

pub const CANDLE_INTERVAL_5MIN: &'static str = "5min";

pub const CANDLE_INTERVAL_10MIN: &'static str = "10min";

pub const CANDLE_INTERVAL_15MIN: &'static str = "15min";

pub const CANDLE_INTERVAL_30MIN: &'static str = "30min";

pub const CANDLE_INTERVAL_1HOUR: &'static str = "hour";

pub const CANDLE_INTERVAL_2HOUR: &'static str = "2hour";

pub const CANDLE_INTERVAL_4HOUR: &'static str = "4hour";

pub const CANDLE_INTERVAL_1DAY: &'static str = "day";

pub const CANDLE_INTERVAL_1WEEK: &'static str = "week";

pub const CANDLE_INTERVAL_1MONTH: &'static str = "month";

/// The trading status of an instrument.
pub type TradingStatus = String;

pub const TRADING_STATUS_BREAK_IN_TRADING: &'static str = "break_in_trading";

pub const TRADING_STATUS_NORMAL_TRADING: &'static str = "normal_trading";

pub const TRADING_STATUS_NOT_AVAILABLE_FOR_TRADING: &'static str = "not_available_for_trading";

pub const TRADING_STATUS_CLOSING_AUCTION: &'static str = "closing_auction";

pub const TRADING_STATUS_CLOSING_PERIOD: &'static str = "closing_period";

pub const TRADING_STATUS_DARK_POOL_AUCTION: &'static str = "dark_pool_auction";

pub const TRADING_STATUS_DISCRETE_AUCTION: &'static str = "discrete_auction";

pub const TRADING_STATUS_OPENING_PERIOD: &'static str = "opening_period";

pub const TRADING_STATUS_OPENING_AUCTION_PERIOD: &'static str = "opening_auction_period";

pub const TRADING_STATUS_TRADING_AT_CLOSING_AUCTION_PRICE: &'static str = "trading_at_closing_auction_price";

} // verus!
