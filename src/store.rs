//! Durable writes: the key each event is stored under, the write it maps to,
//! and an in-memory store with the same idempotent upsert semantics.

use vstd::prelude::*;

use crate::event::{is_open_event, Event};
use crate::interval::Interval;
use crate::text::str_eq;

verus! {

/// The key of a stored row: `(symbol, trade_id)` for a trade,
/// `(symbol, interval, start_time)` for a closed kline.
pub enum Key {
    Trade { symbol: Seq<char>, trade_id: u64 },
    Kline { symbol: Seq<char>, interval: Interval, start_time: i64 },
}

/// The key an event is stored under.
pub open spec fn key_of(e: Event) -> Key {
    match e {
        Event::Trade { symbol, trade_id, .. } => Key::Trade { symbol: symbol@, trade_id },
        Event::Kline { symbol, interval, start_time, .. } => Key::Kline {
            symbol: symbol@,
            interval,
            start_time,
        },
    }
}

/// How many rows of a table are stored under a key.
pub open spec fn count_key(rows: Seq<Event>, k: Key) -> nat
    decreases rows.len(),
{
    if rows.len() == 0 {
        0
    } else {
        count_key(rows.drop_last(), k) + if key_of(rows.last()) == k {
            1nat
        } else {
            0nat
        }
    }
}

/// What an upsert of `e` leaves: one row under `e`'s key, that row being `e`,
/// and every other key with the rows it had.
pub open spec fn upsert_post(before: Seq<Event>, after: Seq<Event>, e: Event) -> bool {
    &&& count_key(after, key_of(e)) == 1
    &&& after.contains(e)
    &&& forall|k: Key| k != key_of(e) ==> #[trigger] count_key(after, k) == count_key(before, k)
    &&& forall|x: Event| #[trigger] before.contains(x) && key_of(x) != key_of(e) ==> after.contains(x)
}

proof fn lemma_count_push(rows: Seq<Event>, x: Event, k: Key)
    ensures
        count_key(rows.push(x), k) == count_key(rows, k) + if key_of(x) == k {
            1nat
        } else {
            0nat
        },
{
    assert(rows.push(x).drop_last() =~= rows);
}

proof fn lemma_count_update(rows: Seq<Event>, i: int, x: Event, k: Key)
    requires
        0 <= i < rows.len(),
    ensures
        count_key(rows.update(i, x), k) + (if key_of(rows[i]) == k {
            1nat
        } else {
            0nat
        }) == count_key(rows, k) + (if key_of(x) == k {
            1nat
        } else {
            0nat
        }),
    decreases rows.len(),
{
    let u = rows.update(i, x);
    if i == rows.len() - 1 {
        assert(u.drop_last() =~= rows.drop_last());
    } else {
        assert(u.drop_last() =~= rows.drop_last().update(i, x));
        lemma_count_update(rows.drop_last(), i, x, k);
    }
}

proof fn lemma_count_absent(rows: Seq<Event>, k: Key)
    requires
        forall|j: int| 0 <= j < rows.len() ==> key_of(#[trigger] rows[j]) != k,
    ensures
        count_key(rows, k) == 0,
    decreases rows.len(),
{
    if rows.len() > 0 {
        lemma_count_absent(rows.drop_last(), k);
    }
}

proof fn lemma_count_present(rows: Seq<Event>, i: int)
    requires
        0 <= i < rows.len(),
    ensures
        count_key(rows, key_of(rows[i])) >= 1,
    decreases rows.len(),
{
    if i < rows.len() - 1 {
        lemma_count_present(rows.drop_last(), i);
    }
}

/// Whether two events are stored under the same key.
pub fn same_key(a: &Event, b: &Event) -> (r: bool)
    ensures
        r == (key_of(*a) == key_of(*b)),
{
    match (a, b) {
        (Event::Trade { symbol: s1, trade_id: t1, .. }, Event::Trade {
            symbol: s2,
            trade_id: t2,
            ..
        }) => *t1 == *t2 && str_eq(s1.as_str(), s2.as_str()),
        (
            Event::Kline { symbol: s1, interval: i1, start_time: st1, .. },
            Event::Kline { symbol: s2, interval: i2, start_time: st2, .. },
        ) => *i1 == *i2 && *st1 == *st2 && str_eq(s1.as_str(), s2.as_str()),
        _ => false,
    }
}

/// The store operation an event maps to.
#[derive(Clone, Copy, Debug, PartialEq, Eq, Structural)]
pub enum Write {
    UpsertTrade,
    UpsertClosedKline,
    /// An open kline window: nothing is written.
    Skip,
}

/// The store operation for an event: trades and closed klines are upserted
/// under their key, open klines are never written.
pub fn write_for(e: &Event) -> (r: Write)
    ensures
        r == (match *e {
            Event::Trade { .. } => Write::UpsertTrade,
            Event::Kline { is_closed, .. } => if is_closed {
                Write::UpsertClosedKline
            } else {
                Write::Skip
            },
        }),
{
    match e {
        Event::Trade { .. } => Write::UpsertTrade,
        Event::Kline { is_closed, .. } => if *is_closed {
            Write::UpsertClosedKline
        } else {
            Write::Skip
        },
    }
}

/// What persisting an event did.
#[derive(Clone, Copy, Debug, PartialEq, Eq, Structural)]
pub enum Outcome {
    Inserted,
    Skipped,
}

/// An in-memory store of rows, at most one under each key.
pub struct MemoryStore {
    pub rows: Vec<Event>,
}

impl MemoryStore {
    /// No key holds more than one row.
    pub open spec fn wf(&self) -> bool {
        forall|k: Key| #[trigger] count_key(self.rows@, k) <= 1
    }

    /// An empty store.
    pub fn new() -> (r: MemoryStore)
        ensures
            r.wf(),
            r.rows@.len() == 0,
    {
        MemoryStore { rows: Vec::new() }
    }

    /// The number of rows stored.
    pub fn len(&self) -> (r: usize)
        ensures
            r == self.rows@.len(),
    {
        self.rows.len()
    }

    /// The number of rows stored under the key of `probe`.
    pub fn count_at(&self, probe: &Event) -> (r: usize)
        ensures
            r == count_key(self.rows@, key_of(*probe)),
    {
        let ghost k = key_of(*probe);
        let mut n: usize = 0;
        let mut i: usize = 0;
        while i < self.rows.len()
            invariant
                k == key_of(*probe),
                i <= self.rows@.len(),
                n == count_key(self.rows@.subrange(0, i as int), k),
                n <= i,
            decreases self.rows@.len() - i,
        {
            let ghost next = self.rows@.subrange(0, i + 1);
            assert(next.drop_last() =~= self.rows@.subrange(0, i as int));
            assert(next.last() == self.rows@[i as int]);
            assert(count_key(next, k) == count_key(next.drop_last(), k) + if key_of(next.last())
                == k {
                1nat
            } else {
                0nat
            });
            if same_key(&self.rows[i], probe) {
                n = n + 1;
            }
            i = i + 1;
        }
        assert(self.rows@.subrange(0, i as int) =~= self.rows@);
        n
    }

    /// Writes `e` under its key, replacing the row stored there if any.
    pub fn upsert(&mut self, e: Event)
        requires
            old(self).wf(),
        ensures
            final(self).wf(),
            upsert_post(old(self).rows@, final(self).rows@, e),
    {
        let ghost before = self.rows@;
        let mut i: usize = 0;
        while i < self.rows.len()
            invariant
                self.rows@ == before,
                i <= before.len(),
                forall|j: int| 0 <= j < i ==> key_of(#[trigger] before[j]) != key_of(e),
            ensures
                self.rows@ == before,
                i <= before.len(),
                forall|j: int| 0 <= j < i ==> key_of(#[trigger] before[j]) != key_of(e),
                i < before.len() ==> key_of(before[i as int]) == key_of(e),
            decreases before.len() - i,
        {
            if same_key(&self.rows[i], &e) {
                break;
            }
            i = i + 1;
        }
        if i < self.rows.len() {
            let ghost ii = i as int;
            proof {
                lemma_count_present(before, ii);
            }
            self.rows.set(i, e);
            assert(self.rows@ == before.update(ii, e));
            proof {
                assert forall|k: Key| #[trigger] count_key(self.rows@, k) + (if key_of(before[ii]) == k {
                    1nat
                } else {
                    0nat
                }) == count_key(before, k) + (if key_of(e) == k {
                    1nat
                } else {
                    0nat
                }) by {
                    lemma_count_update(before, ii, e, k);
                }
                assert(self.rows@[ii] == e);
                assert forall|x: Event| #[trigger] before.contains(x) && key_of(x) != key_of(e)
                    implies self.rows@.contains(x) by {
                    let j = choose|j: int| 0 <= j < before.len() && before[j] == x;
                    assert(j != ii);
                    assert(self.rows@[j] == x);
                }
            }
        } else {
            proof {
                lemma_count_absent(before, key_of(e));
                assert forall|k: Key| #[trigger] count_key(before.push(e), k) == count_key(before, k)
                    + (if key_of(e) == k {
                    1nat
                } else {
                    0nat
                }) by {
                    lemma_count_push(before, e, k);
                }
            }
            self.rows.push(e);
            proof {
                assert(self.rows@[before.len() as int] == e);
                assert forall|x: Event| #[trigger] before.contains(x) implies self.rows@.contains(x) by {
                    let j = choose|j: int| 0 <= j < before.len() && before[j] == x;
                    assert(self.rows@[j] == x);
                }
            }
        }
    }
}

/// Persists one event into a store: an open kline is skipped and leaves the
/// store unchanged; anything else is upserted under its key.
pub fn persist(store: &mut MemoryStore, e: Event) -> (r: Outcome)
    requires
        old(store).wf(),
    ensures
        final(store).wf(),
        is_open_event(e) ==> r == Outcome::Skipped && final(store).rows@ == old(store).rows@,
        !is_open_event(e) ==> r == Outcome::Inserted && upsert_post(
            old(store).rows@,
            final(store).rows@,
            e,
        ),
{
    match write_for(&e) {
        Write::Skip => Outcome::Skipped,
        _ => {
            store.upsert(e);
            Outcome::Inserted
        },
    }
}

} // verus!
