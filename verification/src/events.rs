//! The typed events the engine produces.
//!
//! The wire schemas of these records belong to the upstream feed; the
//! engine only promises the fields it actually extracts, so each record
//! holds the identifying fields of its shape. Quantities arrive as JSON
//! strings on this feed and are kept as strings; update identifiers are
//! non-negative integers.

use vstd::prelude::*;

verus! {

/// Spot account snapshot update (`outboundAccountInfo`).
#[derive(Debug, Clone, PartialEq)]
pub struct AccountUpdateEvent {
    pub event_type: String,
}

/// Spot order/trade execution update (`executionReport`).
#[derive(Debug, Clone, PartialEq)]
pub struct OrderTradeEvent {
    pub event_type: String,
    pub symbol: String,
}

/// Aggregated trade (`aggTrade`).
#[derive(Debug, Clone, PartialEq)]
pub struct TradesEvent {
    pub event_type: String,
    pub symbol: String,
    pub price: String,
}

/// Full order-book snapshot (`lastUpdateId`).
#[derive(Debug, Clone, PartialEq)]
pub struct OrderBook {
    pub last_update_id: u64,
}

/// One entry of a day-ticker batch (`24hrTicker`).
#[derive(Debug, Clone, PartialEq)]
pub struct DayTickerEvent {
    pub event_type: String,
    pub symbol: String,
}

/// K-line/candlestick update (`kline`).
#[derive(Debug, Clone, PartialEq)]
pub struct KlineEvent {
    pub event_type: String,
    pub symbol: String,
}

/// Incremental depth update (`depthUpdate`).
#[derive(Debug, Clone, PartialEq)]
pub struct DepthOrderBookEvent {
    pub event_type: String,
    pub symbol: String,
}

/// Best bid/offer ticker: the shape with exactly the keys
/// `u, s, b, B, a, A` and no event-type tag of its own.
#[derive(Debug, Clone, PartialEq)]
pub struct BookTickerEvent {
    pub update_id: u64,
    pub symbol: String,
    pub best_bid: String,
    pub best_bid_qty: String,
    pub best_ask: String,
    pub best_ask_qty: String,
}

/// Futures account update (`ACCOUNT_UPDATE`).
#[derive(Debug, Clone, PartialEq)]
pub struct FuturesAccountUpdateEvent {
    pub event_type: String,
}

/// Futures order/trade update (`ORDER_TRADE_UPDATE`).
#[derive(Debug, Clone, PartialEq)]
pub struct OrderTradeUpdateEvent {
    pub event_type: String,
}

/// Futures mark-price/funding update (stream name contains `markPrice`).
#[derive(Debug, Clone, PartialEq)]
pub struct FuturesFunding {
    pub event_type: String,
    pub symbol: String,
    pub mark_price: String,
}

/// One decoded event, tagged with the shape it was classified as.
#[derive(Debug, Clone, PartialEq)]
pub enum WebsocketEvent {
    AccountUpdate(AccountUpdateEvent),
    OrderTrade(OrderTradeEvent),
    Trade(TradesEvent),
    OrderBook(OrderBook),
    DayTicker(Vec<DayTickerEvent>),
    Kline(KlineEvent),
    DepthOrderBook(DepthOrderBookEvent),
    BookTicker(BookTickerEvent),
    FuturesAccountUpdateEvent(FuturesAccountUpdateEvent),
    OrderTradeUpdateEvent(OrderTradeUpdateEvent),
    FuturesFunding(FuturesFunding),
}

/// Mathematical value of an `AccountUpdateEvent`.
pub struct AccountUpdateVal {
    pub event_type: Seq<char>,
}

/// Mathematical value of an `OrderTradeEvent`.
pub struct OrderTradeVal {
    pub event_type: Seq<char>,
    pub symbol: Seq<char>,
}

/// Mathematical value of a `TradesEvent`.
pub struct TradesVal {
    pub event_type: Seq<char>,
    pub symbol: Seq<char>,
    pub price: Seq<char>,
}

/// Mathematical value of an `OrderBook`.
pub struct OrderBookVal {
    pub last_update_id: u64,
}

/// Mathematical value of a `DayTickerEvent`.
pub struct DayTickerVal {
    pub event_type: Seq<char>,
    pub symbol: Seq<char>,
}

/// Mathematical value of a `KlineEvent`.
pub struct KlineVal {
    pub event_type: Seq<char>,
    pub symbol: Seq<char>,
}

/// Mathematical value of a `DepthOrderBookEvent`.
pub struct DepthOrderBookVal {
    pub event_type: Seq<char>,
    pub symbol: Seq<char>,
}

/// Mathematical value of a `BookTickerEvent`.
pub struct BookTickerVal {
    pub update_id: u64,
    pub symbol: Seq<char>,
    pub best_bid: Seq<char>,
    pub best_bid_qty: Seq<char>,
    pub best_ask: Seq<char>,
    pub best_ask_qty: Seq<char>,
}

/// Mathematical value of a `FuturesAccountUpdateEvent`.
pub struct FuturesAccountUpdateVal {
    pub event_type: Seq<char>,
}

/// Mathematical value of an `OrderTradeUpdateEvent`.
pub struct OrderTradeUpdateVal {
    pub event_type: Seq<char>,
}

/// Mathematical value of a `FuturesFunding`.
pub struct FuturesFundingVal {
    pub event_type: Seq<char>,
    pub symbol: Seq<char>,
    pub mark_price: Seq<char>,
}

/// Mathematical value of a `WebsocketEvent`.
pub enum EventVal {
    AccountUpdate(AccountUpdateVal),
    OrderTrade(OrderTradeVal),
    Trade(TradesVal),
    OrderBook(OrderBookVal),
    DayTicker(Seq<DayTickerVal>),
    Kline(KlineVal),
    DepthOrderBook(DepthOrderBookVal),
    BookTicker(BookTickerVal),
    FuturesAccountUpdateEvent(FuturesAccountUpdateVal),
    OrderTradeUpdateEvent(OrderTradeUpdateVal),
    FuturesFunding(FuturesFundingVal),
}

impl View for DayTickerEvent {
    type V = DayTickerVal;

    open spec fn view(&self) -> DayTickerVal {
        DayTickerVal { event_type: self.event_type@, symbol: self.symbol@ }
    }
}

impl View for WebsocketEvent {
    type V = EventVal;

    open spec fn view(&self) -> EventVal {
        match self {
            WebsocketEvent::AccountUpdate(e) => EventVal::AccountUpdate(
                AccountUpdateVal { event_type: e.event_type@ },
            ),
            WebsocketEvent::OrderTrade(e) => EventVal::OrderTrade(
                OrderTradeVal { event_type: e.event_type@, symbol: e.symbol@ },
            ),
            WebsocketEvent::Trade(e) => EventVal::Trade(
                TradesVal { event_type: e.event_type@, symbol: e.symbol@, price: e.price@ },
            ),
            WebsocketEvent::OrderBook(e) => EventVal::OrderBook(
                OrderBookVal { last_update_id: e.last_update_id },
            ),
            WebsocketEvent::DayTicker(es) => EventVal::DayTicker(
                crate::json::elems_view(es@),
            ),
            WebsocketEvent::Kline(e) => EventVal::Kline(
                KlineVal { event_type: e.event_type@, symbol: e.symbol@ },
            ),
            WebsocketEvent::DepthOrderBook(e) => EventVal::DepthOrderBook(
                DepthOrderBookVal { event_type: e.event_type@, symbol: e.symbol@ },
            ),
            WebsocketEvent::BookTicker(e) => EventVal::BookTicker(
                BookTickerVal {
                    update_id: e.update_id,
                    symbol: e.symbol@,
                    best_bid: e.best_bid@,
                    best_bid_qty: e.best_bid_qty@,
                    best_ask: e.best_ask@,
                    best_ask_qty: e.best_ask_qty@,
                },
            ),
            WebsocketEvent::FuturesAccountUpdateEvent(e) => EventVal::FuturesAccountUpdateEvent(
                FuturesAccountUpdateVal { event_type: e.event_type@ },
            ),
            WebsocketEvent::OrderTradeUpdateEvent(e) => EventVal::OrderTradeUpdateEvent(
                OrderTradeUpdateVal { event_type: e.event_type@ },
            ),
            WebsocketEvent::FuturesFunding(e) => EventVal::FuturesFunding(
                FuturesFundingVal {
                    event_type: e.event_type@,
                    symbol: e.symbol@,
                    mark_price: e.mark_price@,
                },
            ),
        }
    }
}

} // verus!
