//! Keep-alive: the interval granted to a connection, and when a client that
//! has gone silent is given up.

use crate::metadata::MQTTClusterDynamicConfig;
use crate::protocol::MQTTProtocol;
use crate::registry::Record;
use vstd::prelude::*;

verus! {

/// The keep-alive interval that the server applies to a connection: the one
/// the client asked for where it lies within the cluster's maximum; the
/// maximum where the client asked for more; and the cluster's default, itself
/// capped by the maximum, where the client asked for none.
pub open spec fn effective_keep_alive(cluster: MQTTClusterDynamicConfig, requested: u16) -> u16 {
    let max = cluster.protocol.max_server_keep_alive;
    let wanted = if requested == 0 {
        cluster.protocol.default_server_keep_alive
    } else {
        requested
    };
    if wanted > max {
        max
    } else {
        wanted
    }
}

/// The keep-alive interval for a client that asked for `keep_alive` seconds.
pub fn client_keep_live_time(cluster: &MQTTClusterDynamicConfig, keep_alive: u16) -> (granted: u16)
    ensures
        granted == effective_keep_alive(*cluster, keep_alive),
{
    let wanted = if keep_alive == 0 {
        cluster.protocol.default_server_keep_alive
    } else {
        keep_alive
    };
    if wanted > cluster.protocol.max_server_keep_alive {
        cluster.protocol.max_server_keep_alive
    } else {
        wanted
    }
}

/// When a client was last heard from, and the keep-alive interval it was granted.
#[derive(Clone, Copy, Debug, PartialEq, Eq, Structural)]
pub struct ConnectionLiveTime {
    pub protobol: MQTTProtocol,
    pub keep_live: u16,
    pub heartbeat: u64,
}

impl View for ConnectionLiveTime {
    type V = ConnectionLiveTime;

    open spec fn view(&self) -> ConnectionLiveTime {
        *self
    }
}

impl Record for ConnectionLiveTime {
    open spec fn wf(&self) -> bool {
        true
    }
}

/// A client is given up once more than one and a half keep-alive intervals
/// have passed since its last heartbeat.
pub open spec fn heartbeat_expired(live_time: ConnectionLiveTime, now: u64) -> bool {
    2 * (now - live_time.heartbeat) > 3 * live_time.keep_live
}

/// The last second at which the client of `live_time` is still kept.
pub open spec fn last_live_second(live_time: ConnectionLiveTime) -> int {
    live_time.heartbeat + (3 * live_time.keep_live) / 2
}

impl ConnectionLiveTime {
    /// Whether the client is to be disconnected at time `now`.
    pub fn is_expired(&self, now: u64) -> (expired: bool)
        ensures
            expired == heartbeat_expired(*self, now),
    {
        if now <= self.heartbeat {
            false
        } else {
            let elapsed: u64 = now - self.heartbeat;
            let keep: u64 = self.keep_live as u64;
            elapsed > keep + keep / 2
        }
    }
}

/// The sweeper gives a client up exactly from the second after
/// `heartbeat + 1.5 * keep_live` (rounded down) on, and from then on at every
/// later second.
pub proof fn lemma_expiry_threshold(live_time: ConnectionLiveTime, now: u64)
    ensures
        heartbeat_expired(live_time, now) <==> now > last_live_second(live_time),
{
}

} // verus!
