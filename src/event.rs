//! Canonical events and the normaliser that builds them from decoded feed
//! records.

use vstd::prelude::*;

use crate::codec::{Dec, WireEvent};
use crate::interval::Interval;

verus! {

/// A storage-ready market event, written once and never changed.
pub enum Event {
    Trade {
        event_time: i64,
        symbol: String,
        trade_id: u64,
        price: Dec,
        quantity: Dec,
        buyer_order_id: u64,
        seller_order_id: u64,
        trade_time: i64,
        is_buyer_maker: bool,
    },
    Kline {
        event_time: i64,
        symbol: String,
        start_time: i64,
        close_time: i64,
        interval: Interval,
        first_trade_id: u64,
        last_trade_id: u64,
        open: Dec,
        close: Dec,
        high: Dec,
        low: Dec,
        base_volume: Dec,
        quote_volume: Dec,
        taker_buy_base_volume: Dec,
        taker_buy_quote_volume: Dec,
        num_trades: i64,
        is_closed: bool,
    },
}

/// Whether a decoded record is a kline whose window is still open.
pub open spec fn is_open_kline(w: WireEvent) -> bool {
    w matches WireEvent::Kline { kline, .. } && !kline.is_closed
}

/// Whether an event is a kline whose window is still open.
pub open spec fn is_open_event(e: Event) -> bool {
    e matches Event::Kline { is_closed, .. } && !is_closed
}

/// Whether an event holds exactly the fields of a decoded record, flattened.
pub open spec fn event_of_wire(e: Event, w: WireEvent) -> bool {
    match (e, w) {
        (
            Event::Trade {
                event_time,
                symbol,
                trade_id,
                price,
                quantity,
                buyer_order_id,
                seller_order_id,
                trade_time,
                is_buyer_maker,
            },
            WireEvent::Trade {
                event_time: e2,
                symbol: s2,
                trade_id: t2,
                price: p2,
                quantity: q2,
                buyer_order_id: b2,
                seller_order_id: a2,
                trade_time: tt2,
                is_buyer_maker: m2,
            },
        ) => event_time == e2 && symbol@ == s2@ && trade_id == t2 && price == p2 && quantity == q2
            && buyer_order_id == b2 && seller_order_id == a2 && trade_time == tt2 && is_buyer_maker
            == m2,
        (
            Event::Kline {
                event_time,
                symbol,
                start_time,
                close_time,
                interval,
                first_trade_id,
                last_trade_id,
                open,
                close,
                high,
                low,
                base_volume,
                quote_volume,
                taker_buy_base_volume,
                taker_buy_quote_volume,
                num_trades,
                is_closed,
            },
            WireEvent::Kline { event_time: e2, symbol: s2, kline: k },
        ) => event_time == e2 && symbol@ == s2@ && start_time == k.start_time && close_time
            == k.close_time && interval == k.interval && first_trade_id == k.first_trade_id
            && last_trade_id == k.last_trade_id && open == k.open && close == k.close && high
            == k.high && low == k.low && base_volume == k.base_volume && quote_volume
            == k.quote_volume && taker_buy_base_volume == k.taker_buy_base_volume
            && taker_buy_quote_volume == k.taker_buy_quote_volume && num_trades == k.num_trades
            && is_closed == k.is_closed,
        _ => false,
    }
}

/// Flattens a decoded record into a canonical event. A kline whose window is
/// still open yields `None`: it is filtered, not an error.
pub fn normalize(w: WireEvent) -> (r: Option<Event>)
    ensures
        r is None <==> is_open_kline(w),
        r matches Some(e) ==> event_of_wire(e, w) && !is_open_event(e),
{
    match w {
        WireEvent::Trade {
            event_time,
            symbol,
            trade_id,
            price,
            quantity,
            buyer_order_id,
            seller_order_id,
            trade_time,
            is_buyer_maker,
        } => Some(
            Event::Trade {
                event_time,
                symbol,
                trade_id,
                price,
                quantity,
                buyer_order_id,
                seller_order_id,
                trade_time,
                is_buyer_maker,
            },
        ),
        WireEvent::Kline { event_time, symbol, kline: k } => {
            if !k.is_closed {
                return None;
            }
            Some(
                Event::Kline {
                    event_time,
                    symbol,
                    start_time: k.start_time,
                    close_time: k.close_time,
                    interval: k.interval,
                    first_trade_id: k.first_trade_id,
                    last_trade_id: k.last_trade_id,
                    open: k.open,
                    close: k.close,
                    high: k.high,
                    low: k.low,
                    base_volume: k.base_volume,
                    quote_volume: k.quote_volume,
                    taker_buy_base_volume: k.taker_buy_base_volume,
                    taker_buy_quote_volume: k.taker_buy_quote_volume,
                    num_trades: k.num_trades,
                    is_closed: k.is_closed,
                },
            )
        },
    }
}

} // verus!
