//! The per-frame pipeline: decode, normalise, and what becomes of a frame;
//! how a failed store write is classified and handled.

use vstd::prelude::*;

use crate::codec::{cause_of, decode, raw_valid, wire_of_raw, DecodeCause, DecodeError, RawEvent, WireEvent};
use crate::event::{event_of_wire, is_open_event, normalize, Event};
use crate::store::{count_key, key_of, upsert_post, Outcome};

verus! {

/// Whether a raw record is a kline whose window is still open.
pub open spec fn raw_is_open_kline(p: RawEvent) -> bool {
    p matches RawEvent::Kline { kline, .. } && !kline.is_closed
}

/// Whether an event is what decoding and normalising a raw record gives.
pub open spec fn event_of_raw(e: Event, p: RawEvent) -> bool {
    exists|w: WireEvent| wire_of_raw(w, p) && #[trigger] event_of_wire(e, w)
}

/// What becomes of one frame.
pub enum FrameOutcome {
    /// A canonical event, to be written to the store.
    Persist(Event),
    /// An open kline window: nothing is written, and nothing failed.
    Filtered,
    /// The frame could not be decoded; its bytes go to the dead-letter sink.
    DeadLetter(DecodeError),
}

/// Runs one frame through decoding and normalisation. Nothing is dropped: a
/// frame that cannot be decoded comes back with its bytes for dead-lettering.
pub fn process_frame(raw: Vec<u8>, parsed: Option<RawEvent>) -> (r: FrameOutcome)
    ensures
        r is DeadLetter <==> !(parsed matches Some(p) && raw_valid(p)),
        r matches FrameOutcome::DeadLetter(e) ==> e.raw@ == raw@ && e.cause == (match parsed {
            Some(p) => cause_of(p),
            None => DecodeCause::Malformed,
        }),
        r is Filtered <==> (parsed matches Some(p) && raw_valid(p) && raw_is_open_kline(p)),
        r matches FrameOutcome::Persist(e) ==> event_of_raw(e, parsed->Some_0) && !is_open_event(
            e,
        ),
{
    match decode(raw, parsed) {
        Err(e) => FrameOutcome::DeadLetter(e),
        Ok(w) => {
            let ghost w0 = w;
            match normalize(w) {
                None => FrameOutcome::Filtered,
                Some(e) => {
                    assert(wire_of_raw(w0, parsed->Some_0) && event_of_wire(e, w0));
                    FrameOutcome::Persist(e)
                },
            }
        },
    }
}

/// Persisting the same event twice leaves exactly one row under its key, and
/// every other key as it was before the first write.
pub proof fn persist_twice_one_row(s0: Seq<Event>, s1: Seq<Event>, s2: Seq<Event>, e: Event)
    requires
        upsert_post(s0, s1, e),
        upsert_post(s1, s2, e),
    ensures
        count_key(s2, key_of(e)) == 1,
        s2.contains(e),
        forall|k: crate::store::Key| k != key_of(e) ==> #[trigger] count_key(s2, k) == count_key(
            s0,
            k,
        ),
{
}

/// Two events made from the same raw record share their key: a frame
/// delivered again after a reconnect is written under the key it had.
pub proof fn redelivered_same_key(p: RawEvent, e1: Event, e2: Event)
    requires
        event_of_raw(e1, p),
        event_of_raw(e2, p),
    ensures
        key_of(e1) == key_of(e2),
{
    let w1 = choose|w: WireEvent| wire_of_raw(w, p) && #[trigger] event_of_wire(e1, w);
    let w2 = choose|w: WireEvent| wire_of_raw(w, p) && #[trigger] event_of_wire(e2, w);
    match p {
        RawEvent::Kline { kline, .. } => {
            assert(w1 matches WireEvent::Kline { kline: k1, .. } && k1.interval.code()
                == kline.interval@);
            assert(w2 matches WireEvent::Kline { kline: k2, .. } && k2.interval.code()
                == kline.interval@);
            let i1 = w1->Kline_kline.interval;
            let i2 = w2->Kline_kline.interval;
            assert(i1.code() == i2.code());
            crate::interval::lemma_code_injective(i1, i2);
        },
        _ => {},
    }
}

/// A frame processed once, then delivered again after a reconnect and
/// processed again, leaves exactly one row under its key.
pub proof fn redelivery_one_row(
    p: RawEvent,
    e1: Event,
    e2: Event,
    s0: Seq<Event>,
    s1: Seq<Event>,
    s2: Seq<Event>,
)
    requires
        event_of_raw(e1, p),
        event_of_raw(e2, p),
        upsert_post(s0, s1, e1),
        upsert_post(s1, s2, e2),
    ensures
        count_key(s2, key_of(e1)) == 1,
{
    redelivered_same_key(p, e1, e2);
}

} // verus!
