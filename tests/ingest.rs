use feed_ingest::codec::{decode, validate, DecodeCause, Dec, RawEvent, RawKline, WireEvent};
use feed_ingest::event::{normalize, Event};
use feed_ingest::failure::{after_failure, backoff_delay, classify, DbFailure, Disposition, PersistError, RetryPolicy};
use feed_ingest::ingest::{Action, IngestLoop, Input, LoopConfig, Phase};
use feed_ingest::interval::Interval;
use feed_ingest::pipeline::{process_frame, FrameOutcome};
use feed_ingest::store::{persist, write_for, MemoryStore, Outcome, Write};
use feed_ingest::subscription::Stream;

fn text(v: &serde_json::Value, key: &str) -> Option<String> {
    v.get(key)?.as_str().map(|s| s.to_string())
}

fn raw_from_json(bytes: &[u8]) -> Option<RawEvent> {
    let v: serde_json::Value = serde_json::from_slice(bytes).ok()?;
    match v.get("e")?.as_str()? {
        "trade" => Some(RawEvent::Trade {
            event_time: v.get("E")?.as_i64()?,
            symbol: text(&v, "s")?,
            trade_id: v.get("t")?.as_u64()?,
            price: text(&v, "p")?,
            quantity: text(&v, "q")?,
            buyer_order_id: v.get("b")?.as_u64()?,
            seller_order_id: v.get("a")?.as_u64()?,
            trade_time: v.get("T")?.as_i64()?,
            is_buyer_maker: v.get("m")?.as_bool()?,
        }),
        "kline" => {
            let k = v.get("k")?;
            Some(RawEvent::Kline {
                event_time: v.get("E")?.as_i64()?,
                symbol: text(&v, "s")?,
                kline: RawKline {
                    start_time: k.get("t")?.as_i64()?,
                    close_time: k.get("T")?.as_i64()?,
                    interval: text(k, "i")?,
                    first_trade_id: k.get("f")?.as_u64()?,
                    last_trade_id: k.get("L")?.as_u64()?,
                    open: text(k, "o")?,
                    close: text(k, "c")?,
                    high: text(k, "h")?,
                    low: text(k, "l")?,
                    base_volume: text(k, "v")?,
                    num_trades: k.get("n")?.as_i64()?,
                    is_closed: k.get("x")?.as_bool()?,
                    quote_volume: text(k, "q")?,
                    taker_buy_base_volume: text(k, "V")?,
                    taker_buy_quote_volume: text(k, "Q")?,
                },
            })
        }
        _ => None,
    }
}

const TRADE: &str = r#"{"e":"trade","E":1700000000000,"s":"BTCUSDT","t":12345,"p":"42000.50","q":"0.01","b":1,"a":2,"T":1700000000050,"m":false}"#;

fn kline_json(closed: bool) -> String {
    format!(
        r#"{{"e":"kline","E":1700000060000,"s":"BTCUSDT","k":{{"t":1700000000000,"T":1700000059999,"s":"BTCUSDT","i":"1m","f":100,"L":200,"o":"42000.00","c":"42010.50","h":"42020.00","l":"41990.25","v":"12.5","n":101,"x":{},"q":"525000.0","V":"6.25","Q":"262500.0","B":"0"}}}}"#,
        closed
    )
}

/// A fake store that counts each upsert by kind, in front of the in-memory store.
struct CountingStore {
    store: MemoryStore,
    trade_upserts: usize,
    kline_upserts: usize,
    dead_letters: Vec<Vec<u8>>,
}

impl CountingStore {
    fn new() -> Self {
        CountingStore { store: MemoryStore::new(), trade_upserts: 0, kline_upserts: 0, dead_letters: Vec::new() }
    }

    fn feed(&mut self, bytes: &[u8]) {
        match process_frame(bytes.to_vec(), raw_from_json(bytes)) {
            FrameOutcome::Persist(e) => {
                match write_for(&e) {
                    Write::UpsertTrade => self.trade_upserts += 1,
                    Write::UpsertClosedKline => self.kline_upserts += 1,
                    Write::Skip => {}
                }
                persist(&mut self.store, e);
            }
            FrameOutcome::Filtered => {}
            FrameOutcome::DeadLetter(err) => self.dead_letters.push(err.raw),
        }
    }
}

#[test]
fn trade_frame_gives_one_trade_upsert() {
    let mut s = CountingStore::new();
    s.feed(TRADE.as_bytes());
    assert_eq!(s.trade_upserts, 1);
    assert_eq!(s.kline_upserts, 0);
    assert_eq!(s.store.len(), 1);
    match &s.store.rows[0] {
        Event::Trade { symbol, price, quantity, trade_id, event_time, trade_time, buyer_order_id, seller_order_id, is_buyer_maker } => {
            assert_eq!(symbol, "BTCUSDT");
            assert_eq!(*price, Dec { mantissa: 4200050, scale: 2 });
            assert_eq!(*quantity, Dec { mantissa: 1, scale: 2 });
            assert_eq!(*trade_id, 12345);
            assert_eq!(*event_time, 1700000000000);
            assert_eq!(*trade_time, 1700000000050);
            assert_eq!((*buyer_order_id, *seller_order_id, *is_buyer_maker), (1, 2, false));
        }
        _ => panic!("expected a trade"),
    }
}

#[test]
fn open_kline_not_written_then_closed_written_once() {
    let mut s = CountingStore::new();
    s.feed(kline_json(false).as_bytes());
    assert_eq!(s.kline_upserts, 0);
    assert_eq!(s.store.len(), 0);
    s.feed(kline_json(true).as_bytes());
    assert_eq!(s.kline_upserts, 1);
    assert_eq!(s.store.len(), 1);
    assert!(s.dead_letters.is_empty());
}

#[test]
fn malformed_json_is_dead_lettered_with_its_bytes() {
    let mut s = CountingStore::new();
    let bytes = b"{\"e\":\"trade\",\"E\":17000";
    s.feed(bytes);
    assert_eq!(s.trade_upserts + s.kline_upserts, 0);
    assert_eq!(s.store.len(), 0);
    assert_eq!(s.dead_letters.len(), 1);
    assert_eq!(s.dead_letters[0], bytes.to_vec());
}

#[test]
fn unknown_tag_is_malformed() {
    let bytes = br#"{"e":"depth","E":1}"#;
    match process_frame(bytes.to_vec(), raw_from_json(bytes)) {
        FrameOutcome::DeadLetter(e) => {
            assert_eq!(e.cause, DecodeCause::Malformed);
            assert_eq!(e.raw, bytes.to_vec());
        }
        _ => panic!("expected a dead letter"),
    }
}

#[test]
fn persisting_twice_keeps_one_row() {
    let mut store = MemoryStore::new();
    let e1 = match process_frame(TRADE.as_bytes().to_vec(), raw_from_json(TRADE.as_bytes())) {
        FrameOutcome::Persist(e) => e,
        _ => panic!("expected an event"),
    };
    let e2 = match process_frame(TRADE.as_bytes().to_vec(), raw_from_json(TRADE.as_bytes())) {
        FrameOutcome::Persist(e) => e,
        _ => panic!("expected an event"),
    };
    assert_eq!(persist(&mut store, e1), Outcome::Inserted);
    assert_eq!(persist(&mut store, e2), Outcome::Inserted);
    assert_eq!(store.len(), 1);
}

#[test]
fn redelivery_after_reconnect_keeps_one_row() {
    let mut s = CountingStore::new();
    let mut lp = IngestLoop::new(config(2, 4));
    assert_eq!(lp.step(Input::Start), Action::Connect);
    assert_eq!(lp.step(Input::Connected), Action::Nothing);
    assert_eq!(lp.step(Input::FrameRead), Action::Dispatch);
    s.feed(kline_json(true).as_bytes());
    assert_eq!(lp.step(Input::WorkDone), Action::Nothing);
    assert!(matches!(lp.step(Input::ConnectionLost), Action::Wait { .. }));
    assert_eq!(lp.step(Input::BackoffElapsed), Action::Connect);
    assert_eq!(lp.step(Input::Connected), Action::Nothing);
    assert_eq!(lp.step(Input::FrameRead), Action::Dispatch);
    s.feed(kline_json(true).as_bytes());
    assert_eq!(s.store.len(), 1);
    let probe = match process_frame(kline_json(true).into_bytes(), raw_from_json(kline_json(true).as_bytes())) {
        FrameOutcome::Persist(e) => e,
        _ => panic!("expected an event"),
    };
    assert_eq!(s.store.count_at(&probe), 1);
}

#[test]
fn distinct_trades_get_distinct_rows() {
    let mut s = CountingStore::new();
    s.feed(TRADE.as_bytes());
    s.feed(TRADE.replace("12345", "12346").as_bytes());
    s.feed(TRADE.replace("BTCUSDT", "ETHUSDT").as_bytes());
    assert_eq!(s.store.len(), 3);
}

fn config(max_in_flight: usize, queue_capacity: usize) -> LoopConfig {
    LoopConfig { max_in_flight, queue_capacity, backoff_floor_ms: 100, backoff_ceiling_ms: 1000, stable_after_ms: 5000 }
}

#[test]
fn in_flight_never_exceeds_bound() {
    let mut lp = IngestLoop::new(config(2, 2));
    lp.step(Input::Start);
    lp.step(Input::Connected);
    let mut actions = Vec::new();
    for _ in 0..6 {
        actions.push(lp.step(Input::FrameRead));
        assert!(lp.in_flight <= 2);
    }
    assert_eq!(
        actions,
        vec![Action::Dispatch, Action::Dispatch, Action::Enqueue, Action::Enqueue, Action::Refuse, Action::Refuse]
    );
    assert!(!lp.accepts_frame());
    assert_eq!(lp.step(Input::WorkDone), Action::Dispatch);
    assert_eq!((lp.in_flight, lp.queued), (2, 1));
    assert!(lp.accepts_frame());
}

#[test]
fn reconnect_backoff_doubles_and_resets() {
    let mut lp = IngestLoop::new(config(1, 1));
    assert_eq!(lp.step(Input::Start), Action::Connect);
    assert_eq!(lp.step(Input::ConnectFailed), Action::Wait { delay_ms: 100 });
    assert_eq!(lp.phase, Phase::Disconnected);
    lp.step(Input::BackoffElapsed);
    assert_eq!(lp.step(Input::ConnectFailed), Action::Wait { delay_ms: 200 });
    lp.step(Input::BackoffElapsed);
    assert_eq!(lp.step(Input::ConnectFailed), Action::Wait { delay_ms: 400 });
    lp.step(Input::BackoffElapsed);
    assert_eq!(lp.step(Input::ConnectFailed), Action::Wait { delay_ms: 800 });
    lp.step(Input::BackoffElapsed);
    assert_eq!(lp.step(Input::ConnectFailed), Action::Wait { delay_ms: 1000 });
    lp.step(Input::BackoffElapsed);
    lp.step(Input::Connected);
    lp.step(Input::Tick { elapsed_ms: 5000 });
    assert_eq!(lp.failures, 0);
    assert_eq!(lp.step(Input::ConnectionLost), Action::Wait { delay_ms: 100 });
}

#[test]
fn shutdown_drains_then_closes() {
    let mut lp = IngestLoop::new(config(2, 2));
    lp.step(Input::Start);
    lp.step(Input::Connected);
    lp.step(Input::FrameRead);
    lp.step(Input::FrameRead);
    lp.step(Input::FrameRead);
    assert_eq!(lp.step(Input::Shutdown), Action::Nothing);
    assert_eq!(lp.phase, Phase::Draining);
    assert_eq!(lp.step(Input::FrameRead), Action::Refuse);
    assert_eq!(lp.step(Input::WorkDone), Action::Dispatch);
    assert_eq!(lp.step(Input::WorkDone), Action::Nothing);
    assert_eq!(lp.step(Input::WorkDone), Action::Close);
    assert_eq!(lp.phase, Phase::Stopped);
}

#[test]
fn shutdown_timeout_abandons_pending_work() {
    let mut lp = IngestLoop::new(config(1, 3));
    lp.step(Input::Start);
    lp.step(Input::Connected);
    lp.step(Input::FrameRead);
    lp.step(Input::FrameRead);
    lp.step(Input::Shutdown);
    assert_eq!(lp.step(Input::ShutdownTimedOut), Action::Abandon { in_flight: 1, queued: 1 });
    assert_eq!(lp.phase, Phase::Stopped);
}

#[test]
fn fatal_halts_the_loop() {
    let mut lp = IngestLoop::new(config(1, 1));
    lp.step(Input::Start);
    lp.step(Input::Connected);
    assert_eq!(lp.step(Input::Fatal), Action::Halt);
    assert_eq!(lp.phase, Phase::Stopped);
    assert_eq!(lp.step(Input::Start), Action::Nothing);
}

#[test]
fn decode_keeps_every_trade_field() {
    match decode(TRADE.as_bytes().to_vec(), raw_from_json(TRADE.as_bytes())) {
        Ok(WireEvent::Trade { event_time, symbol, trade_id, price, quantity, buyer_order_id, seller_order_id, trade_time, is_buyer_maker }) => {
            assert_eq!(event_time, 1700000000000);
            assert_eq!(symbol, "BTCUSDT");
            assert_eq!(trade_id, 12345);
            assert_eq!(price, Dec { mantissa: 4200050, scale: 2 });
            assert_eq!(quantity, Dec { mantissa: 1, scale: 2 });
            assert_eq!((buyer_order_id, seller_order_id), (1, 2));
            assert_eq!(trade_time, 1700000000050);
            assert!(!is_buyer_maker);
        }
        _ => panic!("expected a trade"),
    }
}

#[test]
fn decode_keeps_full_unsigned_ids() {
    let json = TRADE.replace("\"t\":12345", "\"t\":18446744073709551615");
    match decode(json.clone().into_bytes(), raw_from_json(json.as_bytes())) {
        Ok(WireEvent::Trade { trade_id, .. }) => assert_eq!(trade_id, u64::MAX),
        _ => panic!("expected a trade"),
    }
}

#[test]
fn decode_keeps_every_kline_field() {
    let j = kline_json(true);
    match decode(j.clone().into_bytes(), raw_from_json(j.as_bytes())) {
        Ok(WireEvent::Kline { event_time, symbol, kline }) => {
            assert_eq!(event_time, 1700000060000);
            assert_eq!(symbol, "BTCUSDT");
            assert_eq!(kline.interval, Interval::Min1);
            assert_eq!((kline.start_time, kline.close_time), (1700000000000, 1700000059999));
            assert_eq!((kline.first_trade_id, kline.last_trade_id, kline.num_trades), (100, 200, 101));
            assert_eq!(kline.close, Dec { mantissa: 4201050, scale: 2 });
            assert_eq!(kline.low, Dec { mantissa: 4199025, scale: 2 });
            assert_eq!(kline.base_volume, Dec { mantissa: 125, scale: 1 });
            assert!(kline.is_closed);
        }
        _ => panic!("expected a kline"),
    }
}

#[test]
fn bad_decimal_is_reported() {
    let json = TRADE.replace("42000.50", "forty");
    let e = decode(json.clone().into_bytes(), raw_from_json(json.as_bytes())).err().unwrap();
    assert_eq!(e.cause, DecodeCause::BadDecimal);
    assert_eq!(e.raw, json.into_bytes());
}

#[test]
fn unknown_interval_is_reported() {
    let json = kline_json(true).replace("\"1m\"", "\"7m\"");
    let e = decode(json.clone().into_bytes(), raw_from_json(json.as_bytes())).err().unwrap();
    assert_eq!(e.cause, DecodeCause::UnknownInterval);
}

#[test]
fn timestamp_out_of_range_is_reported() {
    let json = TRADE.replace("1700000000050", "9223372036854775807");
    let raw = raw_from_json(json.as_bytes()).unwrap();
    assert!(matches!(validate(raw), Err(DecodeCause::BadTimestamp)));
}

#[test]
fn open_kline_normalizes_to_nothing() {
    let j = kline_json(false);
    let w = decode(j.clone().into_bytes(), raw_from_json(j.as_bytes())).ok().unwrap();
    assert!(normalize(w).is_none());
    match process_frame(j.clone().into_bytes(), raw_from_json(j.as_bytes())) {
        FrameOutcome::Filtered => {}
        _ => panic!("expected a filtered frame"),
    }
}

#[test]
fn cause_messages_are_readable() {
    assert_eq!(DecodeCause::BadDecimal.message(), "invalid decimal");
    assert_eq!(DecodeCause::Malformed.message(), "malformed or unknown record");
}

#[test]
fn interval_codes_round_trip() {
    let all = [
        (Interval::Min1, "1m"), (Interval::Min3, "3m"), (Interval::Min5, "5m"), (Interval::Min15, "15m"),
        (Interval::Min30, "30m"), (Interval::Hour1, "1h"), (Interval::Hour2, "2h"), (Interval::Hour4, "4h"),
        (Interval::Hour6, "6h"), (Interval::Hour8, "8h"), (Interval::Hour12, "12h"), (Interval::Day1, "1d"),
        (Interval::Day3, "3d"), (Interval::Week1, "1w"), (Interval::Month1, "1M"),
    ];
    for (i, code) in all {
        assert_eq!(i.to_string(), code);
        assert_eq!(Interval::from_code(code), Some(i));
    }
    assert_eq!(Interval::from_code("2m"), None);
    assert_eq!(Interval::from_code(""), None);
}

#[test]
fn topic_lowercases_the_pair() {
    let t = Stream::Trade { pair: "BTCUSDT".to_string() };
    assert_eq!(t.topic(), "btcusdt@trade");
    let k = Stream::Kline { pair: "EthBtc".to_string(), interval: Interval::Hour4 };
    assert_eq!(k.topic(), "ethbtc@kline_4h");
    assert_eq!(k.endpoint(), "wss://stream.binance.com:9443/ws/ethbtc@kline_4h");
    assert_eq!(t.to_url().unwrap().as_str(), "wss://stream.binance.com:9443/ws/btcusdt@trade");
}

#[test]
fn backoff_values() {
    assert_eq!(backoff_delay(100, 1000, 0), 100);
    assert_eq!(backoff_delay(100, 1000, 3), 800);
    assert_eq!(backoff_delay(100, 1000, 4), 1000);
    assert_eq!(backoff_delay(100, 1000, u32::MAX), 1000);
    assert_eq!(backoff_delay(0, 10, 5), 0);
    assert_eq!(backoff_delay(u64::MAX / 2 + 1, u64::MAX, 1), u64::MAX);
}

#[test]
fn failures_are_classified() {
    assert_eq!(classify(DbFailure::UniqueViolation), Ok(Outcome::Inserted));
    assert_eq!(classify(DbFailure::PoolTimedOut), Err(PersistError::Transient));
    assert_eq!(classify(DbFailure::ConnectionLost), Err(PersistError::Transient));
    assert_eq!(classify(DbFailure::ConstraintViolation), Err(PersistError::Constraint));
    assert_eq!(classify(DbFailure::SchemaMismatch), Err(PersistError::Fatal));
}

#[test]
fn retries_then_dead_letters() {
    let p = RetryPolicy { floor_ms: 50, ceiling_ms: 400, max_attempts: 3 };
    assert_eq!(after_failure(PersistError::Transient, 0, &p), Disposition::Retry { delay_ms: 50 });
    assert_eq!(after_failure(PersistError::Transient, 1, &p), Disposition::Retry { delay_ms: 100 });
    assert_eq!(after_failure(PersistError::Transient, 2, &p), Disposition::DeadLetter);
    assert_eq!(after_failure(PersistError::Constraint, 0, &p), Disposition::DeadLetter);
    assert_eq!(after_failure(PersistError::Fatal, 0, &p), Disposition::Halt);
}
