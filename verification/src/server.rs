//! Request metrics: plain counters for request count and accumulated
//! response and connection times. The live server shares one instance
//! behind its own synchronization and reads wall-clock durations itself;
//! the arithmetic on the counters is what lives here.

use vstd::prelude::*;

verus! {

/// Counters consulted by the dispatcher's caller. Times are recorded in
/// microseconds; every counter wraps around at the integer boundary, as a
/// long-lived process's totals eventually do.
#[derive(Debug)]
pub struct ServerMetrics {
    /// Requests handled so far.
    pub request_count: u64,
    /// Accumulated response time, in microseconds.
    pub total_response_time: u64,
    /// Accumulated connection lifetime, in microseconds.
    pub total_connection_time: u64,
    /// Connections completed so far.
    pub connection_count: u64,
}

impl ServerMetrics {
    /// All counters start at zero.
    pub fn new() -> (r: ServerMetrics)
        ensures
            r.request_count == 0,
            r.total_response_time == 0,
            r.total_connection_time == 0,
            r.connection_count == 0,
    {
        ServerMetrics {
            request_count: 0,
            total_response_time: 0,
            total_connection_time: 0,
            connection_count: 0,
        }
    }

    /// Counts one request.
    pub fn increment_requests(&mut self)
        ensures
            final(self).request_count == old(self).request_count.wrapping_add(1),
            final(self).total_response_time == old(self).total_response_time,
            final(self).total_connection_time == old(self).total_connection_time,
            final(self).connection_count == old(self).connection_count,
    {
        self.request_count = self.request_count.wrapping_add(1);
    }

    /// Adds one response's duration to the running total.
    pub fn record_response_time(&mut self, micros: u64)
        ensures
            final(self).total_response_time == old(self).total_response_time.wrapping_add(micros),
            final(self).request_count == old(self).request_count,
            final(self).total_connection_time == old(self).total_connection_time,
            final(self).connection_count == old(self).connection_count,
    {
        self.total_response_time = self.total_response_time.wrapping_add(micros);
    }

    /// Counts one finished connection and adds its duration to the running
    /// total.
    pub fn record_connection_duration(&mut self, micros: u64)
        ensures
            final(self).connection_count == old(self).connection_count.wrapping_add(1),
            final(self).total_connection_time == old(self).total_connection_time.wrapping_add(
                micros,
            ),
            final(self).request_count == old(self).request_count,
            final(self).total_response_time == old(self).total_response_time,
    {
        self.connection_count = self.connection_count.wrapping_add(1);
        self.total_connection_time = self.total_connection_time.wrapping_add(micros);
    }

    /// The number of requests handled so far.
    pub fn request_count(&self) -> (r: u64)
        ensures
            r == self.request_count,
    {
        self.request_count
    }
}

} // verus!
