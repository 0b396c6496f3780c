//! Dual-mode fuel metering: fuel units plus a wall-clock deadline.
//!
//! Clones of a meter share one consumption counter, kept behind a lock whose
//! invariant is that consumption never exceeds the limit.

use vstd::prelude::*;
use vstd::rwlock::{RwLock, RwLockPredicate};
use std::sync::Arc;

verus! {

/// Milliseconds since the Unix epoch, or 0 when the clock reads before it.
///
/// Trusted: reads `std::time::SystemTime::now()` and converts the duration
/// since `UNIX_EPOCH` to milliseconds; the clock's value is not stated.
#[verifier::external_body]
pub(crate) fn current_time_ms() -> (t: u64) {
    std::time::SystemTime::now()
        .duration_since(std::time::UNIX_EPOCH)
        .map(|d| d.as_millis() as u64)
        .unwrap_or(0)
}

/// Lock invariant of the consumption counter: it never exceeds the limit.
pub struct WithinLimit {
    pub limit: u64,
}

impl RwLockPredicate<u64> for WithinLimit {
    open spec fn inv(self, consumed: u64) -> bool {
        consumed <= self.limit
    }
}

/// The outcome of consuming `amount` units when `consumed` are spent of `limit`:
/// refused (and nothing spent) when it would pass the limit.
pub open spec fn consume_step(consumed: u64, limit: u64, amount: u64) -> (bool, u64) {
    if consumed + amount > limit {
        (false, consumed)
    } else {
        (true, (consumed + amount) as u64)
    }
}

/// Milliseconds elapsed from `start` to `now`, or 0 for a reading before `start`.
pub open spec fn elapsed_since(start: u64, now: u64) -> u64 {
    if now >= start { (now - start) as u64 } else { 0 }
}

/// More than `deadline` milliseconds have elapsed from `start` to `now`.
pub open spec fn deadline_passed(start: u64, deadline: u64, now: u64) -> bool {
    elapsed_since(start, now) > deadline
}

/// Milliseconds left of `deadline` from `start` at `now`, never below 0.
pub open spec fn time_left(start: u64, deadline: u64, now: u64) -> u64 {
    if elapsed_since(start, now) >= deadline { 0 } else { (deadline - elapsed_since(start, now)) as u64 }
}

/// Dual-mode fuel metering: tracks both fuel units and epoch-based timeouts.
#[derive(Clone)]
pub struct FuelMeter {
    fuel_limit: u64,
    fuel_consumed: Arc<RwLock<u64, WithinLimit>>,
    epoch_deadline_ms: u64,
    start_time_ms: u64,
}

impl FuelMeter {
    /// The shared counter's lock keeps it within this meter's limit.
    pub closed spec fn wf(&self) -> bool {
        self.fuel_consumed.pred() == WithinLimit { limit: self.fuel_limit }
    }

    /// The fuel limit.
    pub closed spec fn limit(&self) -> u64 {
        self.fuel_limit
    }

    /// The deadline in milliseconds.
    pub closed spec fn deadline(&self) -> u64 {
        self.epoch_deadline_ms
    }

    /// The clock reading (milliseconds since the Unix epoch) when the meter
    /// was made.
    pub closed spec fn start(&self) -> u64 {
        self.start_time_ms
    }

    /// Creates a meter with `fuel_limit` units and a deadline of
    /// `epoch_deadline_ms` milliseconds from now; nothing is consumed yet.
    pub fn new(fuel_limit: u64, epoch_deadline_ms: u64) -> (r: Self)
        ensures
            r.wf(),
            r.limit() == fuel_limit,
            r.deadline() == epoch_deadline_ms,
    {
        let start_time_ms = current_time_ms();
        let lock = RwLock::new(0u64, Ghost(WithinLimit { limit: fuel_limit }));
        FuelMeter { fuel_limit, fuel_consumed: Arc::new(lock), epoch_deadline_ms, start_time_ms }
    }

    /// Remaining fuel units: the limit less what has been consumed.
    pub fn remaining(&self) -> (r: u64)
        requires
            self.wf(),
        ensures
            r <= self.limit(),
    {
        let consumed = self.consumed();
        self.fuel_limit - consumed
    }

    /// Whether no fuel remains.
    pub fn is_exhausted(&self) -> (r: bool)
        requires
            self.wf(),
        ensures
            self.limit() == 0 ==> r,
    {
        self.remaining() == 0
    }

    /// Total fuel consumed so far, never more than the limit.
    pub fn consumed(&self) -> (r: u64)
        requires
            self.wf(),
        ensures
            r <= self.limit(),
    {
        let handle = self.fuel_consumed.acquire_read();
        let c = *handle.borrow();
        handle.release_read();
        c
    }

    /// Consumes `amount` units. Refuses, consuming nothing, when that would
    /// pass the limit; the counter and the answer follow [`consume_step`].
    pub fn consume(&self, amount: u64) -> (r: bool)
        requires
            self.wf(),
        ensures
            amount > self.limit() ==> !r,
            amount == 0 ==> r,
            r ==> amount <= self.limit(),
    {
        let (current, handle) = self.fuel_consumed.acquire_write();
        let (ok, next) = Self::step(current, self.fuel_limit, amount);
        handle.release_write(next);
        ok
    }

    /// One metering step on plain values.
    pub fn step(consumed: u64, limit: u64, amount: u64) -> (r: (bool, u64))
        requires
            consumed <= limit,
        ensures
            r == consume_step(consumed, limit, amount),
            r.1 <= limit,
    {
        if amount > limit - consumed {
            (false, consumed)
        } else {
            (true, consumed + amount)
        }
    }

    /// Whether more than the deadline has elapsed, at clock reading `now_ms`,
    /// since the meter was made (a reading before the start counts as no time).
    pub fn deadline_exceeded_at(&self, now_ms: u64) -> (r: bool)
        ensures
            r == deadline_passed(self.start(), self.deadline(), now_ms),
    {
        let elapsed = now_ms.saturating_sub(self.start_time_ms);
        elapsed > self.epoch_deadline_ms
    }

    /// Milliseconds left until the deadline at clock reading `now_ms`
    /// (0 once it has passed).
    pub fn remaining_time_at(&self, now_ms: u64) -> (r: u64)
        ensures
            r == time_left(self.start(), self.deadline(), now_ms),
    {
        let elapsed = now_ms.saturating_sub(self.start_time_ms);
        self.epoch_deadline_ms.saturating_sub(elapsed)
    }

    /// Whether more than the deadline has elapsed since the meter was made,
    /// by the clock read now.
    pub fn is_deadline_exceeded(&self) -> (r: bool)
        ensures
            exists|now_ms: u64| r == deadline_passed(self.start(), self.deadline(), now_ms),
    {
        let now = current_time_ms();
        self.deadline_exceeded_at(now)
    }

    /// Milliseconds left until the deadline (0 once it has passed), by the
    /// clock read now.
    pub fn remaining_time_ms(&self) -> (r: u64)
        ensures
            exists|now_ms: u64| r == time_left(self.start(), self.deadline(), now_ms),
    {
        let now = current_time_ms();
        self.remaining_time_at(now)
    }

    /// The deadline in milliseconds.
    pub fn deadline_ms(&self) -> (r: u64)
        ensures
            r == self.deadline(),
    {
        self.epoch_deadline_ms
    }
}

/// Law: metering never lets consumption pass the limit, and a granted
/// request adds exactly its amount.
pub proof fn law_consumption_stays_within_limit(consumed: u64, limit: u64, amount: u64)
    requires
        consumed <= limit,
    ensures
        consume_step(consumed, limit, amount).1 <= limit,
        consume_step(consumed, limit, amount).0 ==> consume_step(consumed, limit, amount).1 == consumed + amount,
        !consume_step(consumed, limit, amount).0 ==> consume_step(consumed, limit, amount).1 == consumed,
{
}

} // verus!
