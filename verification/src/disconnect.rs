//! The teardown of a connection.
//!
//! The local part is done at once: the connection leaves the registry and the
//! session is detached. What lies outside the cache, pausing the delivery to
//! the client, telling the control plane and closing the network connection,
//! is handed back as a plan for the caller to carry out in that order.

use crate::cache::CacheManager;
use crate::clock::now_second;
use crate::error::CoreError;
use vstd::prelude::*;

verus! {

/// What the control plane is told about a session that was detached.
#[derive(Debug)]
pub struct SessionUpdate {
    pub client_id: String,
    pub connect_id: u64,
    pub keep_alive: u64,
    pub session_expiry: u64,
    /// When the session was detached, in seconds since the epoch.
    pub disconnect_ts: u64,
}

/// What is left to do after the local part of a disconnect, in this order.
#[derive(Debug)]
pub struct DisconnectPlan {
    /// The client whose delivery of subscribed messages is to be paused.
    pub stop_push_client_id: String,
    /// The update to persist in the control plane.
    pub session_update: SessionUpdate,
    /// The network connection to close once the update is persisted.
    pub close_connect_id: u64,
}

impl DisconnectPlan {
    /// Whether this is the plan for the disconnect of `(client_id, connect_id)`
    /// at time `now`: the update resets the session's connection, keep-alive
    /// and expiry to zero and carries the time.
    pub open spec fn is_for(&self, client_id: Seq<char>, connect_id: u64, now: u64) -> bool {
        &&& self.stop_push_client_id@ == client_id
        &&& self.session_update.client_id@ == client_id
        &&& self.session_update.connect_id == 0
        &&& self.session_update.keep_alive == 0
        &&& self.session_update.session_expiry == 0
        &&& self.session_update.disconnect_ts == now
        &&& self.close_connect_id == connect_id
    }
}

/// Detaches the client `client_id` from the connection `connect_id` at time
/// `now`: removes the connection, clears the session's binding and records
/// the time. Returns what is left to do outside the cache.
pub fn disconnect_connection_at(
    client_id: &String,
    connect_id: u64,
    cache_manager: &mut CacheManager,
    now: u64,
) -> (plan: DisconnectPlan)
    requires
        old(cache_manager).wf(),
    ensures
        final(cache_manager).wf(),
        final(cache_manager)@ == old(cache_manager)@.disconnect(client_id@, connect_id, now),
        plan.is_for(client_id@, connect_id, now),
{
    cache_manager.remove_connection(connect_id);
    let _ = cache_manager.update_session_connect_id_at(client_id, None, now);
    DisconnectPlan {
        stop_push_client_id: client_id.clone(),
        session_update: SessionUpdate {
            client_id: client_id.clone(),
            connect_id: 0,
            keep_alive: 0,
            session_expiry: 0,
            disconnect_ts: now,
        },
        close_connect_id: connect_id,
    }
}

/// As [`disconnect_connection_at`], at the current time.
pub fn disconnect_connection(client_id: &String, connect_id: u64, cache_manager: &mut CacheManager) -> (plan:
    DisconnectPlan)
    requires
        old(cache_manager).wf(),
    ensures
        final(cache_manager).wf(),
        final(cache_manager)@ == old(cache_manager)@.disconnect(
            client_id@,
            connect_id,
            plan.session_update.disconnect_ts,
        ),
        plan.is_for(client_id@, connect_id, plan.session_update.disconnect_ts),
{
    let now = now_second();
    disconnect_connection_at(client_id, connect_id, cache_manager, now)
}

/// How a disconnect ends once the control plane has answered: the network
/// connection to close where the update was persisted; a transient error, and
/// no connection to close, where it was not. The local part stays done.
pub fn disconnect_outcome(plan: &DisconnectPlan, persisted: bool) -> (outcome: Result<u64, CoreError>)
    ensures
        outcome == (if persisted {
            Ok::<u64, CoreError>(plan.close_connect_id)
        } else {
            Err::<u64, CoreError>(CoreError::TransientControlPlaneError)
        }),
{
    if persisted {
        Ok(plan.close_connect_id)
    } else {
        Err(CoreError::TransientControlPlaneError)
    }
}

} // verus!
