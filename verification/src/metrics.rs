//! What the broker's metrics are computed from: the labels of the thread
//! gauges, the values that gauges take, and the durations of a request.

use vstd::prelude::*;

verus! {

/// The labels of the gauge that counts the broker's active threads.
#[derive(Debug)]
pub struct BrokerThreadLabel {
    pub network: String,
    pub thread_type: String,
}

/// The numbers of threads of one network kind.
#[derive(Clone, Copy, Debug, PartialEq, Eq, Structural)]
pub struct ThreadCounts {
    pub accept: usize,
    pub handler: usize,
    pub response: usize,
}

/// The value that a gauge takes for a count: the count itself, or the largest
/// gauge value where the count lies above it.
pub open spec fn gauge_value_of(count: usize) -> i64 {
    if count <= i64::MAX {
        count as i64
    } else {
        i64::MAX
    }
}

/// The value that a gauge takes for `count`.
pub fn gauge_value(count: usize) -> (value: i64)
    ensures
        value == gauge_value_of(count),
{
    let wide: u128 = count as u128;
    if wide <= 9223372036854775807u128 {
        count as i64
    } else {
        i64::MAX
    }
}

/// The three samples of the thread gauge for a network kind: the threads that
/// accept, handle and respond, in this order, each with its label.
pub fn broker_thread_samples(network: &String, counts: ThreadCounts) -> (samples: Vec<
    (BrokerThreadLabel, i64),
>)
    ensures
        samples@.len() == 3,
        forall|i: int| 0 <= i < 3 ==> (#[trigger] samples@[i]).0.network@ == network@,
        samples@[0].0.thread_type@ == "accept"@,
        samples@[0].1 == gauge_value_of(counts.accept),
        samples@[1].0.thread_type@ == "handler"@,
        samples@[1].1 == gauge_value_of(counts.handler),
        samples@[2].0.thread_type@ == "response"@,
        samples@[2].1 == gauge_value_of(counts.response),
{
    let mut samples: Vec<(BrokerThreadLabel, i64)> = Vec::new();
    samples.push(
        (
            BrokerThreadLabel { network: network.clone(), thread_type: "accept".to_string() },
            gauge_value(counts.accept),
        ),
    );
    samples.push(
        (
            BrokerThreadLabel { network: network.clone(), thread_type: "handler".to_string() },
            gauge_value(counts.handler),
        ),
    );
    samples.push(
        (
            BrokerThreadLabel { network: network.clone(), thread_type: "response".to_string() },
            gauge_value(counts.response),
        ),
    );
    samples
}

/// The high-water mark of the number of connections after `value` connections
/// were seen: the larger of the mark so far and `value`.
pub fn connections_max_after(current: i64, value: i64) -> (mark: i64)
    ensures
        mark == (if current < value {
            value
        } else {
            current
        }),
{
    if current < value {
        value
    } else {
        current
    }
}

/// The milliseconds from `since` to `now`; zero where `since` is the later.
pub open spec fn elapsed(now: u128, since: u128) -> u128 {
    if since <= now {
        (now - since) as u128
    } else {
        0
    }
}

/// The milliseconds from `since` to `now`; zero where `since` is the later.
pub fn elapsed_ms(now: u128, since: u128) -> (ms: u128)
    ensures
        ms == elapsed(now, since),
{
    if since <= now {
        now - since
    } else {
        0
    }
}

/// The durations of a request that was received at `receive_ms`, answered at
/// `response_ms` and sent out at `now`.
#[derive(Clone, Copy, Debug, PartialEq, Eq, Structural)]
pub struct RequestDurations {
    /// From receipt to now.
    pub total_ms: u128,
    /// From receipt to the answer.
    pub handler_ms: u128,
    /// From the answer to now.
    pub response_ms: u128,
}

/// The durations of a request, in milliseconds.
pub fn request_durations(now: u128, receive_ms: u128, response_ms: u128) -> (durations:
    RequestDurations)
    ensures
        durations == (RequestDurations {
            total_ms: elapsed(now, receive_ms),
            handler_ms: elapsed(response_ms, receive_ms),
            response_ms: elapsed(now, response_ms),
        }),
{
    RequestDurations {
        total_ms: elapsed_ms(now, receive_ms),
        handler_ms: elapsed_ms(response_ms, receive_ms),
        response_ms: elapsed_ms(now, response_ms),
    }
}

} // verus!
