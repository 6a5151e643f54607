//! Immutable engine configuration.
//!
//! A [`ConnectionTuning`] is consumed verbatim by the engine at construction
//! time; this core only transports the thresholds. Each setter returns a new
//! value with exactly one field replaced, so partial overrides never mutate.

use std::time::Duration;
use vstd::prelude::*;

verus! {

/// Tuning parameters handed to the engine when a connection is opened.
///
/// No relation between `buffered_writes_low_water` and
/// `buffered_writes_high_water` is enforced here: keeping the low water mark
/// at or below the high water mark is the caller's responsibility, and the
/// engine's behaviour when it is violated is unspecified.
pub struct ConnectionTuning {
    /// Capacity of the internal cross-thread command and delivery queues;
    /// the backpressure knob.
    pub mem_channel_bound: usize,
    /// Byte threshold of buffered socket writes above which the engine
    /// asserts a blocked condition.
    pub buffered_writes_high_water: usize,
    /// Byte threshold of buffered socket writes below which the engine clears
    /// a previously asserted blocked condition.
    pub buffered_writes_low_water: usize,
    /// Optional ceiling on the engine's idle wait for poll events.
    pub poll_timeout: Option<Duration>,
}

impl Default for ConnectionTuning {
    /// Defaults: queue bound 16, high water 16 MiB, low water 0, no poll
    /// timeout.
    fn default() -> (t: Self)
        ensures
            t.mem_channel_bound == 16,
            t.buffered_writes_high_water == 16777216,
            t.buffered_writes_low_water == 0,
            t.poll_timeout is None,
    {
        ConnectionTuning {
            mem_channel_bound: 16,
            buffered_writes_high_water: 16777216,
            buffered_writes_low_water: 0,
            poll_timeout: None,
        }
    }
}

impl ConnectionTuning {
    /// Replace the queue capacity, leaving every other field unchanged.
    pub fn mem_channel_bound(self, mem_channel_bound: usize) -> (t: Self)
        ensures
            t == (ConnectionTuning { mem_channel_bound, ..self }),
    {
        ConnectionTuning { mem_channel_bound, ..self }
    }

    /// Replace the high water mark, leaving every other field unchanged.
    pub fn buffered_writes_high_water(self, buffered_writes_high_water: usize) -> (t: Self)
        ensures
            t == (ConnectionTuning { buffered_writes_high_water, ..self }),
    {
        ConnectionTuning { buffered_writes_high_water, ..self }
    }

    /// Replace the low water mark, leaving every other field unchanged.
    pub fn buffered_writes_low_water(self, buffered_writes_low_water: usize) -> (t: Self)
        ensures
            t == (ConnectionTuning { buffered_writes_low_water, ..self }),
    {
        ConnectionTuning { buffered_writes_low_water, ..self }
    }

    /// Replace the poll timeout, leaving every other field unchanged.
    pub fn poll_timeout(self, poll_timeout: Option<Duration>) -> (t: Self)
        ensures
            t == (ConnectionTuning { poll_timeout, ..self }),
    {
        ConnectionTuning { poll_timeout, ..self }
    }
}

} // verus!
