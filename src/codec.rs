//! Decoding of one feed frame into a typed wire event.
//!
//! The frame's JSON is read into a `RawEvent`, which keeps the feed's own
//! shapes (decimal texts, interval codes, millisecond counts). `decode` then
//! checks each of those against its domain and yields a `WireEvent`, or a
//! `DecodeError` that keeps the frame's bytes.

use vstd::prelude::*;

use crate::interval::Interval;
use crate::outside::{decimal_of, millis_representable, parse_decimal, timestamp_in_range};

verus! {

/// A fixed-precision decimal: `mantissa / 10^scale`.
#[derive(Clone, Copy, Debug, PartialEq, Eq, Structural)]
pub struct Dec {
    pub mantissa: i128,
    pub scale: u32,
}

/// The decimal a text stands for, if it is one.
pub open spec fn dec_of(s: Seq<char>) -> Option<Dec> {
    match decimal_of(s) {
        Some(p) => Some(Dec { mantissa: p.0, scale: p.1 }),
        None => None,
    }
}

/// Whether a text stands for a decimal.
pub open spec fn is_dec(s: Seq<char>) -> bool {
    dec_of(s) is Some
}

/// Whether a text is the code of an interval.
pub open spec fn is_interval_code(s: Seq<char>) -> bool {
    exists|i: Interval| #[trigger] i.code() == s
}

/// The kline window of a trade-aggregation record, as the feed writes it.
pub struct RawKline {
    pub start_time: i64,
    pub close_time: i64,
    pub interval: String,
    pub first_trade_id: u64,
    pub last_trade_id: u64,
    pub open: String,
    pub close: String,
    pub high: String,
    pub low: String,
    pub base_volume: String,
    pub num_trades: i64,
    pub is_closed: bool,
    pub quote_volume: String,
    pub taker_buy_base_volume: String,
    pub taker_buy_quote_volume: String,
}

/// One feed record as read from the frame's JSON, before its fields are
/// checked.
pub enum RawEvent {
    Trade {
        event_time: i64,
        symbol: String,
        trade_id: u64,
        price: String,
        quantity: String,
        buyer_order_id: u64,
        seller_order_id: u64,
        trade_time: i64,
        is_buyer_maker: bool,
    },
    Kline { event_time: i64, symbol: String, kline: RawKline },
}

/// The kline window with its fields in their domains.
pub struct WireKline {
    pub start_time: i64,
    pub close_time: i64,
    pub interval: Interval,
    pub first_trade_id: u64,
    pub last_trade_id: u64,
    pub open: Dec,
    pub close: Dec,
    pub high: Dec,
    pub low: Dec,
    pub base_volume: Dec,
    pub num_trades: i64,
    pub is_closed: bool,
    pub quote_volume: Dec,
    pub taker_buy_base_volume: Dec,
    pub taker_buy_quote_volume: Dec,
}

/// A decoded feed record, still in the feed's nesting.
pub enum WireEvent {
    Trade {
        event_time: i64,
        symbol: String,
        trade_id: u64,
        price: Dec,
        quantity: Dec,
        buyer_order_id: u64,
        seller_order_id: u64,
        trade_time: i64,
        is_buyer_maker: bool,
    },
    Kline { event_time: i64, symbol: String, kline: WireKline },
}

/// Why a frame could not be decoded.
#[derive(Clone, Copy, Debug, PartialEq, Eq, Structural)]
pub enum DecodeCause {
    /// Not JSON, an unknown tag, or a field missing or of the wrong type.
    Malformed,
    /// A millisecond count outside the representable instants.
    BadTimestamp,
    /// A price or volume that is not a decimal.
    BadDecimal,
    /// An interval code outside the known widths.
    UnknownInterval,
}

impl DecodeCause {
    /// A human-readable account of the cause.
    pub open spec fn message_spec(self) -> Seq<char> {
        match self {
            DecodeCause::Malformed => "malformed or unknown record"@,
            DecodeCause::BadTimestamp => "timestamp out of range"@,
            DecodeCause::BadDecimal => "invalid decimal"@,
            DecodeCause::UnknownInterval => "unknown interval"@,
        }
    }

    /// A human-readable account of the cause.
    pub fn message(&self) -> (r: String)
        ensures
            r@ == self.message_spec(),
    {
        let s: &str = match self {
            DecodeCause::Malformed => "malformed or unknown record",
            DecodeCause::BadTimestamp => "timestamp out of range",
            DecodeCause::BadDecimal => "invalid decimal",
            DecodeCause::UnknownInterval => "unknown interval",
        };
        String::from_str(s)
    }
}

/// A frame that could not be decoded, with its bytes kept for dead-lettering.
pub struct DecodeError {
    pub raw: Vec<u8>,
    pub cause: DecodeCause,
}

/// Whether every timestamp of a raw record is representable.
pub open spec fn raw_times_ok(p: RawEvent) -> bool {
    match p {
        RawEvent::Trade { event_time, trade_time, .. } => millis_representable(event_time)
            && millis_representable(trade_time),
        RawEvent::Kline { event_time, kline, .. } => millis_representable(event_time)
            && millis_representable(kline.start_time) && millis_representable(kline.close_time),
    }
}

/// Whether every decimal text of a raw record stands for a decimal.
pub open spec fn raw_decimals_ok(p: RawEvent) -> bool {
    match p {
        RawEvent::Trade { price, quantity, .. } => is_dec(price@) && is_dec(quantity@),
        RawEvent::Kline { kline: k, .. } => is_dec(k.open@) && is_dec(k.close@) && is_dec(k.high@)
            && is_dec(k.low@) && is_dec(k.base_volume@) && is_dec(k.quote_volume@) && is_dec(
            k.taker_buy_base_volume@,
        ) && is_dec(k.taker_buy_quote_volume@),
    }
}

/// Whether the interval code of a raw record, if it has one, is known.
pub open spec fn raw_interval_ok(p: RawEvent) -> bool {
    match p {
        RawEvent::Trade { .. } => true,
        RawEvent::Kline { kline, .. } => is_interval_code(kline.interval@),
    }
}

/// Whether a raw record is structurally valid in every field.
pub open spec fn raw_valid(p: RawEvent) -> bool {
    raw_times_ok(p) && raw_decimals_ok(p) && raw_interval_ok(p)
}

/// The cause reported for an invalid raw record: timestamps are checked first,
/// then decimals, then the interval.
pub open spec fn cause_of(p: RawEvent) -> DecodeCause {
    if !raw_times_ok(p) {
        DecodeCause::BadTimestamp
    } else if !raw_decimals_ok(p) {
        DecodeCause::BadDecimal
    } else {
        DecodeCause::UnknownInterval
    }
}

/// Whether a decoded record holds exactly the fields of a raw one: every
/// field unchanged, decimal texts read as decimals, the interval code read as
/// its width.
pub open spec fn wire_of_raw(w: WireEvent, p: RawEvent) -> bool {
    match (w, p) {
        (
            WireEvent::Trade {
                event_time,
                symbol,
                trade_id,
                price,
                quantity,
                buyer_order_id,
                seller_order_id,
                trade_time,
                is_buyer_maker,
            },
            RawEvent::Trade {
                event_time: e2,
                symbol: s2,
                trade_id: t2,
                price: p2,
                quantity: q2,
                buyer_order_id: b2,
                seller_order_id: a2,
                trade_time: tt2,
                is_buyer_maker: m2,
            },
        ) => event_time == e2 && symbol@ == s2@ && trade_id == t2 && dec_of(p2@) == Some(price)
            && dec_of(q2@) == Some(quantity) && buyer_order_id == b2 && seller_order_id == a2
            && trade_time == tt2 && is_buyer_maker == m2,
        (
            WireEvent::Kline { event_time, symbol, kline: k },
            RawEvent::Kline { event_time: e2, symbol: s2, kline: r },
        ) => event_time == e2 && symbol@ == s2@ && k.start_time == r.start_time && k.close_time
            == r.close_time && k.interval.code() == r.interval@ && k.first_trade_id
            == r.first_trade_id && k.last_trade_id == r.last_trade_id && dec_of(r.open@) == Some(
            k.open,
        ) && dec_of(r.close@) == Some(k.close) && dec_of(r.high@) == Some(k.high) && dec_of(
            r.low@,
        ) == Some(k.low) && dec_of(r.base_volume@) == Some(k.base_volume) && k.num_trades
            == r.num_trades && k.is_closed == r.is_closed && dec_of(r.quote_volume@) == Some(
            k.quote_volume,
        ) && dec_of(r.taker_buy_base_volume@) == Some(k.taker_buy_base_volume) && dec_of(
            r.taker_buy_quote_volume@,
        ) == Some(k.taker_buy_quote_volume),
        _ => false,
    }
}

/// Reads a decimal text.
pub fn read_decimal(s: &String) -> (r: Option<Dec>)
    ensures
        r == dec_of(s@),
{
    match parse_decimal(s.as_str()) {
        Some(p) => Some(Dec { mantissa: p.0, scale: p.1 }),
        None => None,
    }
}

/// Checks the fields of a raw record and yields the decoded record, or the
/// first cause that fails.
pub fn validate(p: RawEvent) -> (r: Result<WireEvent, DecodeCause>)
    ensures
        r is Ok <==> raw_valid(p),
        r matches Ok(w) ==> wire_of_raw(w, p),
        r matches Err(c) ==> c == cause_of(p),
{
    match p {
        RawEvent::Trade {
            event_time,
            symbol,
            trade_id,
            price,
            quantity,
            buyer_order_id,
            seller_order_id,
            trade_time,
            is_buyer_maker,
        } => {
            if !timestamp_in_range(event_time) || !timestamp_in_range(trade_time) {
                return Err(DecodeCause::BadTimestamp);
            }
            let pr = read_decimal(&price);
            let qu = read_decimal(&quantity);
            match (pr, qu) {
                (Some(price), Some(quantity)) => Ok(
                    WireEvent::Trade {
                        event_time,
                        symbol,
                        trade_id,
                        price,
                        quantity,
                        buyer_order_id,
                        seller_order_id,
                        trade_time,
                        is_buyer_maker,
                    },
                ),
                _ => Err(DecodeCause::BadDecimal),
            }
        },
        RawEvent::Kline { event_time, symbol, kline: k } => {
            if !timestamp_in_range(event_time) || !timestamp_in_range(k.start_time)
                || !timestamp_in_range(k.close_time) {
                return Err(DecodeCause::BadTimestamp);
            }
            let open = read_decimal(&k.open);
            let close = read_decimal(&k.close);
            let high = read_decimal(&k.high);
            let low = read_decimal(&k.low);
            let base_volume = read_decimal(&k.base_volume);
            let quote_volume = read_decimal(&k.quote_volume);
            let taker_base = read_decimal(&k.taker_buy_base_volume);
            let taker_quote = read_decimal(&k.taker_buy_quote_volume);
            if open.is_none() || close.is_none() || high.is_none() || low.is_none()
                || base_volume.is_none() || quote_volume.is_none() || taker_base.is_none()
                || taker_quote.is_none() {
                return Err(DecodeCause::BadDecimal);
            }
            let interval = match Interval::from_code(k.interval.as_str()) {
                Some(i) => i,
                None => {
                    return Err(DecodeCause::UnknownInterval);
                },
            };
            let kline = WireKline {
                start_time: k.start_time,
                close_time: k.close_time,
                interval,
                first_trade_id: k.first_trade_id,
                last_trade_id: k.last_trade_id,
                open: open.unwrap(),
                close: close.unwrap(),
                high: high.unwrap(),
                low: low.unwrap(),
                base_volume: base_volume.unwrap(),
                num_trades: k.num_trades,
                is_closed: k.is_closed,
                quote_volume: quote_volume.unwrap(),
                taker_buy_base_volume: taker_base.unwrap(),
                taker_buy_quote_volume: taker_quote.unwrap(),
            };
            Ok(WireEvent::Kline { event_time, symbol, kline })
        },
    }
}

/// Decodes one frame. `parsed` is the frame's JSON read into the feed's
/// record shape, or `None` where the bytes are not such a record. Every field
/// of a valid record comes through unchanged in value; on failure the error
/// keeps the frame's bytes.
pub fn decode(raw: Vec<u8>, parsed: Option<RawEvent>) -> (r: Result<WireEvent, DecodeError>)
    ensures
        r is Ok <==> (parsed matches Some(p) && raw_valid(p)),
        r matches Ok(w) ==> wire_of_raw(w, parsed->Some_0),
        r matches Err(e) ==> e.raw@ == raw@ && e.cause == (match parsed {
            Some(p) => cause_of(p),
            None => DecodeCause::Malformed,
        }),
{
    match parsed {
        None => Err(DecodeError { raw, cause: DecodeCause::Malformed }),
        Some(p) => match validate(p) {
            Ok(w) => Ok(w),
            Err(cause) => Err(DecodeError { raw, cause }),
        },
    }
}

} // verus!
