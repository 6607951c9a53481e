//! Store-write failures: their classes, exponential backoff, and what is done
//! after a failed write.

use vstd::prelude::*;

use crate::store::Outcome;

verus! {

/// Two to the power `n`.
pub open spec fn pow2(n: nat) -> nat
    decreases n,
{
    if n == 0 {
        1
    } else {
        2 * pow2((n - 1) as nat)
    }
}

/// The delay before retry number `attempt` (from 0): the floor doubled once
/// per earlier attempt, never above the ceiling.
pub open spec fn backoff_spec(floor: u64, ceiling: u64, attempt: nat) -> int {
    let d = floor * pow2(attempt);
    if d < ceiling {
        d
    } else {
        ceiling as int
    }
}

proof fn lemma_pow2_mono(a: nat, b: nat)
    requires
        a <= b,
    ensures
        pow2(a) <= pow2(b),
    decreases b,
{
    if a < b {
        lemma_pow2_mono(a, (b - 1) as nat);
    }
}

/// The exponential backoff delay, in milliseconds.
pub fn backoff_delay(floor: u64, ceiling: u64, attempt: u32) -> (r: u64)
    requires
        floor <= ceiling,
    ensures
        r == backoff_spec(floor, ceiling, attempt as nat),
{
    let mut d: u64 = floor;
    let mut j: u32 = 0;
    assert(pow2(0) == 1);
    assert(floor * pow2(0) == floor);
    while j < attempt && d < ceiling
        invariant
            floor <= ceiling,
            j <= attempt,
            d == backoff_spec(floor, ceiling, j as nat),
        decreases attempt - j,
    {
        proof {
            let p = pow2(j as nat);
            assert(pow2((j + 1) as nat) == 2 * p);
            assert(floor * pow2((j + 1) as nat) == 2 * (floor * p)) by (nonlinear_arith)
                requires
                    pow2((j + 1) as nat) == 2 * p,
            ;
        }
        if d > ceiling - d {
            d = ceiling;
        } else {
            d = d + d;
        }
        j = j + 1;
    }
    proof {
        if j < attempt {
            lemma_pow2_mono(j as nat, attempt as nat);
            let a = pow2(j as nat);
            let b = pow2(attempt as nat);
            assert(floor * a <= floor * b) by (nonlinear_arith)
                requires
                    a <= b,
            ;
        }
    }
    d
}

/// A failure the store reported for one write, as the store's driver names it.
#[derive(Clone, Copy, Debug, PartialEq, Eq, Structural)]
pub enum DbFailure {
    /// No connection could be had from the pool in time.
    PoolTimedOut,
    /// The connection failed or was closed during the write.
    ConnectionLost,
    /// The row's key was already stored.
    UniqueViolation,
    /// A foreign-key, not-null or check constraint refused the row.
    ConstraintViolation,
    /// The schema does not match the row (a missing column, a wrong type).
    SchemaMismatch,
}

/// The class of a failed write.
#[derive(Clone, Copy, Debug, PartialEq, Eq, Structural)]
pub enum PersistError {
    /// Safe to retry after a backoff.
    Transient,
    /// A genuine schema violation: the event is dead-lettered.
    Constraint,
    /// Not retryable: the loop halts and an operator is told.
    Fatal,
}

/// Classifies a store failure. A duplicate key on an upsert is no failure:
/// the row is already there, so the write counts as done.
pub fn classify(f: DbFailure) -> (r: Result<Outcome, PersistError>)
    ensures
        r == (match f {
            DbFailure::PoolTimedOut | DbFailure::ConnectionLost => Err(PersistError::Transient),
            DbFailure::UniqueViolation => Ok(Outcome::Inserted),
            DbFailure::ConstraintViolation => Err(PersistError::Constraint),
            DbFailure::SchemaMismatch => Err(PersistError::Fatal),
        }),
{
    match f {
        DbFailure::PoolTimedOut | DbFailure::ConnectionLost => Err(PersistError::Transient),
        DbFailure::UniqueViolation => Ok(Outcome::Inserted),
        DbFailure::ConstraintViolation => Err(PersistError::Constraint),
        DbFailure::SchemaMismatch => Err(PersistError::Fatal),
    }
}

/// How failed writes are retried.
#[derive(Clone, Copy, Debug, PartialEq, Eq, Structural)]
pub struct RetryPolicy {
    pub floor_ms: u64,
    pub ceiling_ms: u64,
    /// The most attempts made for one event, the first included.
    pub max_attempts: u32,
}

/// What is done after a failed write.
#[derive(Clone, Copy, Debug, PartialEq, Eq, Structural)]
pub enum Disposition {
    Retry { delay_ms: u64 },
    DeadLetter,
    Halt,
}

/// What follows the failure of attempt number `attempt` (from 0) to write an
/// event: a transient failure is retried after the backoff delay until the
/// attempts run out, then dead-lettered; a constraint failure is dead-lettered;
/// a fatal one halts the loop.
pub fn after_failure(err: PersistError, attempt: u32, policy: &RetryPolicy) -> (r: Disposition)
    requires
        policy.floor_ms <= policy.ceiling_ms,
    ensures
        r == (match err {
            PersistError::Transient => if attempt + 1 < policy.max_attempts {
                Disposition::Retry {
                    delay_ms: backoff_spec(policy.floor_ms, policy.ceiling_ms, attempt as nat) as u64,
                }
            } else {
                Disposition::DeadLetter
            },
            PersistError::Constraint => Disposition::DeadLetter,
            PersistError::Fatal => Disposition::Halt,
        }),
{
    match err {
        PersistError::Transient => {
            if attempt < policy.max_attempts && attempt + 1 < policy.max_attempts {
                Disposition::Retry {
                    delay_ms: backoff_delay(policy.floor_ms, policy.ceiling_ms, attempt),
                }
            } else {
                Disposition::DeadLetter
            }
        },
        PersistError::Constraint => Disposition::DeadLetter,
        PersistError::Fatal => Disposition::Halt,
    }
}

} // verus!
