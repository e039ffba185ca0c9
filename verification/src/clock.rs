//! The time-slot clock: wall-clock time quantised to a step within a
//! repeating twelve-hour cycle.

use chrono::Timelike;
use vstd::arithmetic::div_mod::{lemma_fundamental_div_mod, lemma_mod_multiples_basic};
use vstd::arithmetic::mul::{lemma_mul_inequality, lemma_mul_is_commutative};
use vstd::prelude::*;

verus! {

/// Milliseconds in one second.
pub const MILLIS_PER_SECOND: u32 = 1000;

/// Milliseconds in one minute.
pub const MILLIS_PER_MINUTE: u32 = 60_000;

/// Milliseconds in one hour.
pub const MILLIS_PER_HOUR: u32 = 3_600_000;

/// Length of the repeating cycle: twelve hours, in milliseconds.
pub const TOTAL_CYCLE_MS: u32 = 43_200_000;

/// One reading of a wall clock, broken into its fields.
#[derive(Clone, Copy, Debug)]
pub struct WallClock {
    /// Hour of the day, 0 to 23.
    pub hour: u32,
    /// Minute of the hour, 0 to 59.
    pub minute: u32,
    /// Second of the minute, 0 to 59.
    pub second: u32,
    /// Milliseconds since the second began: 0 to 999, and 1000 to 1999
    /// while a leap second is being inserted.
    pub millis: u32,
}

impl WallClock {
    /// The ranges that the fields of a clock reading lie in.
    pub open spec fn valid(self) -> bool {
        &&& self.hour < 24
        &&& self.minute < 60
        &&& self.second < 60
        &&& self.millis < 2000
    }

    /// Milliseconds since the last midnight or noon.
    pub open spec fn elapsed(self) -> int {
        (self.hour % 12) * MILLIS_PER_HOUR + self.minute * MILLIS_PER_MINUTE + self.second
            * MILLIS_PER_SECOND + self.millis
    }
}

/// The time slot that holds the instant `elapsed` milliseconds into a
/// cycle: the instant, wrapped into the cycle, rounded down to a multiple
/// of `step_ms`.
pub open spec fn slot_containing(elapsed: int, step_ms: int) -> int {
    ((elapsed % (TOTAL_CYCLE_MS as int)) / step_ms) * step_ms
}

/// A time slot is a multiple of its step, lies inside the cycle, and is
/// the start of the step-long interval that holds the instant it was
/// made from. For an instant inside the cycle it is the instant rounded
/// down to a multiple of the step.
pub proof fn lemma_slot_containing(elapsed: int, step_ms: int)
    requires
        step_ms > 0,
    ensures
        0 <= slot_containing(elapsed, step_ms) < TOTAL_CYCLE_MS,
        slot_containing(elapsed, step_ms) % step_ms == 0,
        slot_containing(elapsed, step_ms) <= elapsed % (TOTAL_CYCLE_MS as int)
            < slot_containing(elapsed, step_ms) + step_ms,
        0 <= elapsed < TOTAL_CYCLE_MS ==> slot_containing(elapsed, step_ms) == (elapsed / step_ms)
            * step_ms,
{
    let within = elapsed % (TOTAL_CYCLE_MS as int);
    let count = within / step_ms;
    lemma_fundamental_div_mod(within, step_ms);
    lemma_mul_is_commutative(step_ms, count);
    lemma_mod_multiples_basic(count, step_ms);
    assert(0 <= count) by (nonlinear_arith)
        requires
            count == within / step_ms,
            within >= 0,
            step_ms > 0,
    ;
    lemma_mul_inequality(0, count, step_ms);
}

/// Quantises a clock reading to its time slot.
pub fn slot_of(clock: WallClock, step_ms: u32) -> (slot: u32)
    requires
        step_ms > 0,
    ensures
        slot == slot_containing(clock.elapsed(), step_ms as int),
        slot < TOTAL_CYCLE_MS,
        slot % step_ms == 0,
{
    let hours: u64 = (clock.hour % 12) as u64 * 3_600_000;
    let minutes: u64 = clock.minute as u64 * 60_000;
    let seconds: u64 = clock.second as u64 * 1000;
    let elapsed: u64 = hours + minutes + seconds + clock.millis as u64;
    let within: u32 = (elapsed % (TOTAL_CYCLE_MS as u64)) as u32;
    proof {
        lemma_slot_containing(clock.elapsed(), step_ms as int);
    }
    (within / step_ms) * step_ms
}

/// Reads the local wall clock with `chrono::Local::now` and takes the
/// reading apart with `DateTime::time`, `Timelike::hour`, `minute` and
/// `second`, and `DateTime::timestamp_subsec_millis`.
///
/// Nothing of this is proved. The contract gives the ranges that chrono
/// documents: the hour is at most 23, the minute and the second at most
/// 59, and the milliseconds pass 999 only within a leap second, where they
/// stay below 2000. chrono panics where the system clock stands before
/// 1970 or the time zone data gives no offset for the present moment.
#[verifier::external_body]
fn local_wall_clock() -> (now: WallClock)
    ensures
        now.valid(),
{
    let now = chrono::Local::now();
    let time = now.time();
    WallClock {
        hour: time.hour(),
        minute: time.minute(),
        second: time.second(),
        millis: now.timestamp_subsec_millis(),
    }
}

/// The time slot of the present moment, by the local wall clock. Each call
/// reads the clock anew.
pub fn current_slot(step_ms: u32) -> (slot: u32)
    requires
        step_ms > 0,
    ensures
        slot < TOTAL_CYCLE_MS,
        slot % step_ms == 0,
        exists|clock: WallClock| #[trigger]
            clock.valid() && slot == slot_containing(clock.elapsed(), step_ms as int),
{
    let now = local_wall_clock();
    slot_of(now, step_ms)
}

} // verus!
