//! The tick cadence: how often the snake moves, and whether a tick is due.

use std::time::Duration;
use std::time::Instant;
use vstd::prelude::*;

verus! {

/// Ticks per second of the shortest snake.
pub const TICKS_PER_SECOND: usize = 5;

/// Ticks per second that no snake exceeds.
pub const MAX_TICKS_PER_SECOND: usize = 30;

/// Ten seconds, in nanoseconds.
pub const NANOS_PER_TEN_SECONDS: u128 = 10_000_000_000;

/// `std::time::Instant`, a reading of the monotonic clock. Nothing is known
/// of what it holds.
#[verifier::external_type_specification]
#[verifier::external_body]
pub struct ExInstant(Instant);

/// `Instant::now` reads the clock. Nothing is claimed of the reading.
pub assume_specification[ Instant::now ]() -> (now: Instant)
;

/// `Instant::elapsed` gives the time from the instant to now. Nothing is
/// claimed of it.
pub assume_specification[ Instant::elapsed ](instant: &Instant) -> (elapsed: Duration)
;

/// `Duration::as_nanos` gives the duration in whole nanoseconds. Nothing is
/// claimed of the number.
pub assume_specification[ Duration::as_nanos ](duration: &Duration) -> (nanos: u128)
;

/// Ticks per ten seconds of a snake of `snake_len` cells, head included: a
/// tenth of a tick per second for each cell on top of the base rate, and never
/// more than the maximum.
pub open spec fn tick_rate_tenths(snake_len: int) -> int {
    if 10 * TICKS_PER_SECOND + snake_len <= 10 * MAX_TICKS_PER_SECOND {
        10 * TICKS_PER_SECOND + snake_len
    } else {
        10 * MAX_TICKS_PER_SECOND as int
    }
}

/// A tick is due when more than one tick period has passed: with the rate in
/// ticks per ten seconds, when the elapsed time times the rate exceeds ten
/// seconds.
pub open spec fn tick_due(elapsed_nanos: int, snake_len: int) -> bool {
    elapsed_nanos * tick_rate_tenths(snake_len) > NANOS_PER_TEN_SECONDS
}

/// The time from `last` to `now`, zero where the clock reads earlier than
/// `last`.
pub open spec fn elapsed_between(last: int, now: int) -> int {
    if now >= last {
        now - last
    } else {
        0
    }
}

/// Whether a timer that last ticked at `last` ticks at `now`.
pub open spec fn due_at(last: int, now: int, snake_len: int) -> bool {
    tick_due(elapsed_between(last, now), snake_len)
}

/// The time of the last tick after the timer was asked at `now`.
pub open spec fn after_poll(last: int, now: int, snake_len: int) -> int {
    if due_at(last, now, snake_len) {
        now
    } else {
        last
    }
}

proof fn lemma_exceeds_iff_above_quotient(elapsed: int, rate: int, span: int)
    requires
        rate > 0,
        span >= 0,
        elapsed >= 0,
    ensures
        (elapsed * rate > span) == (elapsed > span / rate),
{
    let quotient = span / rate;
    assert(span == rate * quotient + span % rate && 0 <= span % rate < rate) by {
        vstd::arithmetic::div_mod::lemma_fundamental_div_mod(span, rate);
        vstd::arithmetic::div_mod::lemma_mod_bound(span, rate);
    }
    if elapsed > quotient {
        assert(elapsed * rate >= (quotient + 1) * rate) by (nonlinear_arith)
            requires
                elapsed >= quotient + 1,
                rate > 0,
        ;
        assert((quotient + 1) * rate == rate * quotient + rate) by (nonlinear_arith);
    } else {
        assert(elapsed * rate <= quotient * rate) by (nonlinear_arith)
            requires
                elapsed <= quotient,
                rate > 0,
        ;
        assert(quotient * rate == rate * quotient) by (nonlinear_arith);
    }
}

/// The rate of a snake of `snake_len` cells, in ticks per ten seconds.
pub fn rate_tenths(snake_len: usize) -> (rate: u128)
    ensures
        rate == tick_rate_tenths(snake_len as int),
        50 <= rate <= 300,
{
    if snake_len >= 10 * (MAX_TICKS_PER_SECOND - TICKS_PER_SECOND) {
        10 * MAX_TICKS_PER_SECOND as u128
    } else {
        (10 * TICKS_PER_SECOND + snake_len) as u128
    }
}

/// Whether a snake of `snake_len` cells moves again after `elapsed_nanos`.
pub fn is_tick_due(elapsed_nanos: u128, snake_len: usize) -> (due: bool)
    ensures
        due == tick_due(elapsed_nanos as int, snake_len as int),
{
    let rate = rate_tenths(snake_len);
    proof {
        lemma_exceeds_iff_above_quotient(
            elapsed_nanos as int,
            rate as int,
            NANOS_PER_TEN_SECONDS as int,
        );
    }
    elapsed_nanos > NANOS_PER_TEN_SECONDS / rate
}

/// Remembers when the snake last moved. Time is counted in nanoseconds from
/// the timer's creation.
pub struct LogicTimer {
    origin: Instant,
    last_update: u128,
}

impl View for LogicTimer {
    type V = int;

    /// The time of the last tick; zero until the first.
    closed spec fn view(&self) -> int {
        self.last_update as int
    }
}

impl LogicTimer {
    pub fn new() -> (timer: Self)
        ensures
            timer@ == 0,
    {
        Self { origin: Instant::now(), last_update: 0 }
    }

    /// The clock, in nanoseconds since the timer's creation.
    fn now_nanos(&self) -> u128 {
        let since_origin = self.origin.elapsed();
        since_origin.as_nanos()
    }

    /// Asks the timer at a given reading of the clock. It ticks, and
    /// remembers the reading, when a tick is due; else it stays as it was.
    pub fn should_update_at(&mut self, now_nanos: u128, snake_len: usize) -> (fire: bool)
        ensures
            fire == due_at(old(self)@, now_nanos as int, snake_len as int),
            final(self)@ == after_poll(old(self)@, now_nanos as int, snake_len as int),
    {
        let elapsed: u128 = if now_nanos >= self.last_update {
            now_nanos - self.last_update
        } else {
            0
        };

        if is_tick_due(elapsed, snake_len) {
            self.last_update = now_nanos;
            true
        } else {
            false
        }
    }

    /// Asks the timer now. Whatever the clock reads: a tick moves the time of
    /// the last tick forward by more than one period, and without a tick the
    /// timer stays as it was.
    pub fn should_update(&mut self, snake_len: usize) -> (fire: bool)
        ensures
            fire ==> final(self)@ > old(self)@ && tick_due(
                final(self)@ - old(self)@,
                snake_len as int,
            ),
            !fire ==> final(self)@ == old(self)@,
    {
        let now = self.now_nanos();
        self.should_update_at(now, snake_len)
    }
}

/// From 250 cells on the rate stays at thirty ticks per second; below, each
/// cell adds a tenth of a tick per second to the base rate of five.
pub proof fn lemma_rate_saturates(snake_len: int)
    ensures
        tick_rate_tenths(snake_len) <= 300,
        snake_len >= 250 ==> tick_rate_tenths(snake_len) == 300,
        snake_len < 250 ==> tick_rate_tenths(snake_len) == 50 + snake_len,
{
}

/// After a tick at `first`, a second poll at `second` ticks exactly when more
/// than one period lies between the two: never within the period, always
/// beyond it.
pub proof fn lemma_second_poll(last: int, first: int, second: int, snake_len: int)
    requires
        due_at(last, first, snake_len),
        first <= second,
    ensures
        due_at(after_poll(last, first, snake_len), second, snake_len) <==> (second - first)
            * tick_rate_tenths(snake_len) > NANOS_PER_TEN_SECONDS,
        !due_at(after_poll(last, first, snake_len), second, snake_len) ==> after_poll(
            after_poll(last, first, snake_len),
            second,
            snake_len,
        ) == first,
{
}

/// A longer snake never ticks later: what is due for a snake is due for
/// every longer one.
pub proof fn lemma_longer_snake_ticks_sooner(elapsed_nanos: int, shorter: int, longer: int)
    requires
        0 <= elapsed_nanos,
        0 <= shorter <= longer,
        tick_due(elapsed_nanos, shorter),
    ensures
        tick_due(elapsed_nanos, longer),
{
    assert(elapsed_nanos * tick_rate_tenths(shorter) <= elapsed_nanos * tick_rate_tenths(longer))
        by (nonlinear_arith)
        requires
            0 <= elapsed_nanos,
            tick_rate_tenths(shorter) <= tick_rate_tenths(longer),
    ;
}

} // verus!
