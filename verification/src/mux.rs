//! The event multiplexer: merges user input and a fixed-period timer into
//! one ordered event stream. The thread that runs it polls the input source
//! for at most the time left until the next tick is due, forwards any input
//! at once, and emits a tick as soon as a full period has elapsed, so a
//! burst of input can never starve the timer.
//!
//! The loop itself, the input source and the clock live outside the library;
//! this module decides, from a clock reading and a poll outcome, what the
//! loop emits and how its state moves.

use vstd::prelude::*;

verus! {

/// A key as the dashboard understands it.
#[derive(Clone, Copy, Debug, PartialEq, Eq, Structural)]
pub enum Key {
    Char(char),
    Left,
    Right,
    Up,
    Down,
    Other,
}

/// One element of the merged event stream.
#[derive(Clone, Copy, Debug, PartialEq, Eq, Structural)]
pub enum Event {
    Input(Key),
    Tick,
}

/// Multiplexer state: the tick period and the instant the last tick was
/// emitted, both in milliseconds of a monotonic clock.
pub struct EventMultiplexer {
    pub period_ms: u64,
    pub last_tick_ms: u64,
}

impl EventMultiplexer {
    pub open spec fn wf(self) -> bool {
        self.period_ms > 0
    }

    /// A tick is due once a full period has elapsed since the last one.
    pub open spec fn tick_due(self, now: int) -> bool {
        now - self.last_tick_ms >= self.period_ms
    }

    pub fn new(now: u64, period_ms: u64) -> (m: EventMultiplexer)
        requires
            period_ms > 0,
        ensures
            m.wf(),
            m.period_ms == period_ms,
            m.last_tick_ms == now,
    {
        EventMultiplexer { period_ms, last_tick_ms: now }
    }

    /// How long the loop may poll the input source before the next tick is
    /// due: the period minus the time already elapsed, and zero once the
    /// tick is overdue, so input delivery never delays a due tick.
    pub fn poll_budget(&self, now: u64) -> (r: u64)
        requires
            self.wf(),
            now >= self.last_tick_ms,
        ensures
            r == if self.tick_due(now as int) {
                0int
            } else {
                self.period_ms - (now - self.last_tick_ms)
            },
            r <= self.period_ms,
    {
        let elapsed = now - self.last_tick_ms;
        if elapsed >= self.period_ms {
            0
        } else {
            self.period_ms - elapsed
        }
    }

    /// One multiplexer step, taken after each poll of the input source:
    /// any input observed is forwarded first, then a tick is emitted if a
    /// full period has elapsed, and only then does the elapsed-time counter
    /// reset. Returns the input to forward and whether a tick is emitted.
    pub fn step(&mut self, now: u64, input: Option<Key>) -> (out: (Option<Key>, bool))
        requires
            old(self).wf(),
            now >= old(self).last_tick_ms,
        ensures
            final(self).wf(),
            final(self).period_ms == old(self).period_ms,
            out.0 == input,
            out.1 == old(self).tick_due(now as int),
            out.1 ==> final(self).last_tick_ms == now,
            !out.1 ==> *final(self) == *old(self),
    {
        let tick = now - self.last_tick_ms >= self.period_ms;
        if tick {
            self.last_tick_ms = now;
        }
        (input, tick)
    }
}

} // verus!
