//! Laws of the broker state: what holds of every state, and how the
//! operations relate to each other.

use crate::cache::{
    alias_outcome, alias_state, apply_change, session_update_outcome, session_update_state,
    MetadataCacheAction, MetadataCacheType,
};
use crate::connection::{built_connection, capped_u16, capped_u32, ConnectionView};
use crate::error::CoreError;
use crate::events::{MqttBrokerUpdateCacheActionType, ResourceView, UpdateView};
use crate::metadata::{MQTTClusterDynamicConfig, UserView};
use crate::pkid::{exhausted, is_smallest_free};
use crate::protocol::ConnectProperties;
use crate::qos::QosAckPacketInfo;
use crate::sets::lemma_count_within;
use crate::state::CacheState;
use crate::text::{client_prefix, lemma_key_has_client_prefix, lemma_key_is_injective, pkid_key};
use vstd::prelude::*;

verus! {

/// A session is attached to at most one connection: whatever two connection
/// ids it is said to be attached to are the same.
pub proof fn lemma_one_connection_per_session(state: CacheState, client_id: Seq<char>, a: u64, b: u64)
    requires
        state.connect_id_of(client_id) == Some(a),
        state.connect_id_of(client_id) == Some(b),
    ensures
        a == b,
{
}

/// While a session is attached to a connection, attaching it to another one
/// is refused and changes nothing; attaching it to the same one changes nothing.
pub proof fn lemma_binding_is_exclusive(
    state: CacheState,
    client_id: Seq<char>,
    bound: u64,
    connect_id: u64,
    now: u64,
)
    requires
        state.connect_id_of(client_id) == Some(bound),
    ensures
        connect_id != bound ==> session_update_outcome(state, client_id, Some(connect_id)) == Err::<
            (),
            CoreError,
        >(CoreError::AlreadyBound),
        session_update_state(state, client_id, Some(connect_id), now) == state,
{
    assert(state.bind(client_id, bound).sessions =~= state.sessions);
}

/// In a consistent state every outbound packet identifier that a client has
/// in flight lies between 1 and 65535, and a client has at most 65535 of them.
pub proof fn lemma_pkids_in_range(state: CacheState, client_id: Seq<char>)
    requires
        state.consistent(),
    ensures
        state.pkids_of(client_id).finite(),
        state.pkids_of(client_id).len() <= 65535,
        forall|pkid: u16| state.pkids_of(client_id).contains(pkid) ==> 1 <= pkid <= 65535,
{
    if state.pkids.dom().contains(client_id) {
        assert forall|pkid: u16| state.pkids_of(client_id).contains(pkid) implies 1 <= pkid
            <= 65535 by {
            assert(pkid != 0);
        }
    }
}

/// Granting and releasing packet identifiers keeps a state consistent.
pub proof fn lemma_pkid_steps_keep_consistent(state: CacheState, client_id: Seq<char>, pkid: u16)
    requires
        state.consistent(),
    ensures
        state.next_pkid(client_id, pkid) ==> state.hold_pkid(client_id, pkid).consistent(),
        state.remove_pkid_info(client_id, pkid).consistent(),
{
    lemma_pkids_in_range(state, client_id);
    if state.next_pkid(client_id, pkid) {
        let held = state.pkids_of(client_id).insert(pkid);
        lemma_count_within(held, 65535);
    }
    if state.pkids.dom().contains(client_id) {
        let left = state.pkids[client_id].remove(pkid);
        lemma_count_within(left, 65535);
    }
}

/// After the session of a client was removed, no table holds a record of the
/// client: none under its client id, and none under a composite key of it.
pub proof fn lemma_remove_session_clears(state: CacheState, client_id: Seq<char>)
    ensures
        !state.remove_session(client_id).sessions.dom().contains(client_id),
        !state.remove_session(client_id).subscriptions.dom().contains(client_id),
        !state.remove_session(client_id).pkids.dom().contains(client_id),
        !state.remove_session(client_id).heartbeats.dom().contains(client_id),
        forall|key: Seq<char>|
            client_prefix(client_id).is_prefix_of(key) ==> !state.remove_session(
                client_id,
            ).ack_waiters.dom().contains(key) && !state.remove_session(
                client_id,
            ).inbound_pkids.dom().contains(key),
        forall|pkid: u16|
            !state.remove_session(client_id).ack_waiters.dom().contains(
                #[trigger] pkid_key(client_id, pkid),
            ) && !state.remove_session(client_id).inbound_pkids.dom().contains(
                pkid_key(client_id, pkid),
            ),
        state.consistent() ==> state.remove_session(client_id).consistent(),
{
    assert forall|pkid: u16|
        !state.remove_session(client_id).ack_waiters.dom().contains(
            #[trigger] pkid_key(client_id, pkid),
        ) && !state.remove_session(client_id).inbound_pkids.dom().contains(
            pkid_key(client_id, pkid),
        ) by {
        lemma_key_has_client_prefix(client_id, pkid);
    }
}

/// Whether every key of the state that begins with `client_id` belongs to the
/// client: in the tables keyed by client id it is the client id itself, and
/// in the tables with composite keys it begins with the client's prefix.
pub open spec fn keys_belong_to_client(state: CacheState, client_id: Seq<char>) -> bool {
    &&& forall|key: Seq<char>|
        client_id.is_prefix_of(key) && (state.sessions.dom().contains(key)
            || state.subscriptions.dom().contains(key) || state.pkids.dom().contains(key)
            || state.heartbeats.dom().contains(key)) ==> key == client_id
    &&& forall|key: Seq<char>|
        client_id.is_prefix_of(key) && (state.ack_waiters.dom().contains(key)
            || state.inbound_pkids.dom().contains(key)) ==> client_prefix(client_id).is_prefix_of(
            key,
        )
}

/// After the session of a client was removed, no table keyed by client id or
/// by composite key holds a key that begins with the client id, provided that
/// no other client's keys began with it.
pub proof fn lemma_remove_session_leaves_no_key(state: CacheState, client_id: Seq<char>, key: Seq<char>)
    requires
        keys_belong_to_client(state, client_id),
        client_id.is_prefix_of(key),
    ensures
        !state.remove_session(client_id).sessions.dom().contains(key),
        !state.remove_session(client_id).subscriptions.dom().contains(key),
        !state.remove_session(client_id).pkids.dom().contains(key),
        !state.remove_session(client_id).heartbeats.dom().contains(key),
        !state.remove_session(client_id).ack_waiters.dom().contains(key),
        !state.remove_session(client_id).inbound_pkids.dom().contains(key),
{
}

/// A change that arrives twice has the effect of arriving once.
pub proof fn lemma_update_is_idempotent(state: CacheState, update: UpdateView)
    ensures
        state.update_cache(update).update_cache(update) == state.update_cache(update),
{
    let once = state.update_cache(update);
    assert(once.cluster_name == state.cluster_name);
    if state.accepts(update) {
        assert(!once.accepts(update));
    }
}

/// What a change does to the cached metadata, it does no further when done again.
pub proof fn lemma_effect_is_idempotent(
    state: CacheState,
    action_type: MqttBrokerUpdateCacheActionType,
    resource: ResourceView,
)
    ensures
        state.effect(action_type, resource).effect(action_type, resource) == state.effect(
            action_type,
            resource,
        ),
{
    let once = state.effect(action_type, resource);
    let twice = once.effect(action_type, resource);
    assert(twice.users =~= once.users);
    assert(twice.sessions =~= once.sessions);
    assert(twice.subscriptions =~= once.subscriptions);
    assert(twice.pkids =~= once.pkids);
    assert(twice.heartbeats =~= once.heartbeats);
    assert(twice.topics =~= once.topics);
    assert(twice.topic_names =~= once.topic_names);
    assert(twice.ack_waiters =~= once.ack_waiters);
    assert(twice.inbound_pkids =~= once.inbound_pkids);
    assert(twice.acl.rules =~= once.acl.rules);
    assert(twice.acl.blacklist =~= once.acl.blacklist);
    assert(twice =~= once);
}

/// A change of cached metadata that is applied twice has the effect of being
/// applied once.
pub proof fn lemma_apply_is_idempotent(
    state: CacheState,
    action: MetadataCacheAction,
    data_type: MetadataCacheType,
    user: Option<UserView>,
)
    ensures
        apply_change(apply_change(state, action, data_type, user), action, data_type, user)
            == apply_change(state, action, data_type, user),
{
    let once = apply_change(state, action, data_type, user);
    let twice = apply_change(once, action, data_type, user);
    assert(twice.users =~= once.users);
    assert(twice =~= once);
}

/// Setting a topic alias keeps the aliases of every connection within the
/// connection's limit.
pub proof fn lemma_aliases_stay_in_range(
    state: CacheState,
    connect_id: u64,
    topic_name: Seq<char>,
    alias: Option<u16>,
)
    requires
        state.consistent(),
    ensures
        alias_state(state, connect_id, topic_name, alias).consistent(),
{
    let after = alias_state(state, connect_id, topic_name, alias);
    if alias is Some && alias_outcome(state, connect_id, alias) is Ok {
        let a = alias->0;
        assert(state.connections[connect_id].aliases_in_range());
        assert forall|id: u64| #[trigger]
            after.connections.dom().contains(id) implies after.connections[id].aliases_in_range() by {
            if id == connect_id {
                assert forall|x: u16| #[trigger]
                    after.connections[id].topic_alias.dom().contains(x) implies 1 <= x
                    <= after.connections[id].topic_alias_max by {
                    if x != a {
                        assert(state.connections[connect_id].topic_alias.dom().contains(x));
                    }
                }
            } else {
                assert(state.connections.dom().contains(id));
            }
        }
    }
}

/// A connection that was registered is found under its connection id, equal
/// to the one that was registered.
pub proof fn lemma_register_then_get(state: CacheState, connect_id: u64, connection: ConnectionView)
    ensures
        state.add_connection(connect_id, connection).connections.dom().contains(connect_id),
        state.add_connection(connect_id, connection).connections[connect_id] == connection,
        state.add_connection(connect_id, connection).connect_id_of(connection.client_id) == Some(
            connect_id,
        ),
{
}

/// The connection built for a CONNECT packet, once registered, is found under
/// its connection id as it was built.
pub proof fn lemma_build_register_get(
    state: CacheState,
    connect_id: u64,
    client_id: Seq<char>,
    cluster: MQTTClusterDynamicConfig,
    keep_alive: u16,
    connect_properties: Option<ConnectProperties>,
    source_ip_addr: Seq<char>,
    create_time: u64,
)
    ensures
        state.add_connection(
            connect_id,
            built_connection(
                connect_id,
                client_id,
                cluster,
                keep_alive,
                connect_properties,
                source_ip_addr,
                create_time,
            ),
        ).connections[connect_id] == built_connection(
            connect_id,
            client_id,
            cluster,
            keep_alive,
            connect_properties,
            source_ip_addr,
            create_time,
        ),
{
}

/// Releasing the packet identifier that a client was just granted gives the
/// client, and every other client, the pool it had before; nothing else changes.
pub proof fn lemma_acquire_then_release(state: CacheState, client_id: Seq<char>, pkid: u16)
    requires
        state.next_pkid(client_id, pkid),
    ensures
        forall|other: Seq<char>|
            state.hold_pkid(client_id, pkid).remove_pkid_info(client_id, pkid).pkids_of(other)
                == state.pkids_of(other),
        state.hold_pkid(client_id, pkid).remove_pkid_info(client_id, pkid) == (CacheState {
            pkids: state.hold_pkid(client_id, pkid).remove_pkid_info(client_id, pkid).pkids,
            ..state
        }),
        state.pkids.dom().contains(client_id) ==> state.hold_pkid(client_id, pkid).remove_pkid_info(
            client_id,
            pkid,
        ) == state,
{
    let after = state.hold_pkid(client_id, pkid).remove_pkid_info(client_id, pkid);
    assert(after.pkids_of(client_id) =~= state.pkids_of(client_id));
    if state.pkids.dom().contains(client_id) {
        assert(after.pkids =~= state.pkids);
    }
}

/// Where all packet identifiers of a client are in flight, the one that is
/// released is the one that is granted next.
pub proof fn lemma_release_frees(held: Set<u16>, pkid: u16)
    requires
        exhausted(held),
        1 <= pkid,
    ensures
        is_smallest_free(held.remove(pkid), pkid),
{
}

/// Storing a user that the cache did not hold and then removing it leaves the
/// users as they were.
pub proof fn lemma_add_then_delete_user(state: CacheState, user: UserView)
    requires
        !state.users.dom().contains(user.username),
    ensures
        state.add_user(user).del_user(user.username) == state,
        apply_change(
            apply_change(state, MetadataCacheAction::Put, MetadataCacheType::User, Some(user)),
            MetadataCacheAction::Del,
            MetadataCacheType::User,
            Some(user),
        ) == state,
{
    assert(state.add_user(user).del_user(user.username).users =~= state.users);
}

/// A change that adds a user which the cache did not hold, followed by a later
/// change that deletes the user, leaves the users as they were.
pub proof fn lemma_add_then_delete_update(
    state: CacheState,
    user: UserView,
    add_sequence: u64,
    delete_sequence: u64,
)
    requires
        !state.users.dom().contains(user.username),
        add_sequence < delete_sequence,
    ensures
        state.update_cache(
            UpdateView {
                action_type: MqttBrokerUpdateCacheActionType::Add,
                resource: ResourceView::User(user),
                sequence: add_sequence,
            },
        ).update_cache(
            UpdateView {
                action_type: MqttBrokerUpdateCacheActionType::Delete,
                resource: ResourceView::User(user),
                sequence: delete_sequence,
            },
        ).users == state.users,
{
    let add = UpdateView {
        action_type: MqttBrokerUpdateCacheActionType::Add,
        resource: ResourceView::User(user),
        sequence: add_sequence,
    };
    let delete = UpdateView {
        action_type: MqttBrokerUpdateCacheActionType::Delete,
        resource: ResourceView::User(user),
        sequence: delete_sequence,
    };
    let added = state.update_cache(add);
    let after = added.update_cache(delete);
    assert(added.cluster_name == state.cluster_name);
    assert(after.users =~= state.users);
}

/// No two waiters share a key: registering or removing the waiter of one
/// publish leaves the waiter of every other publish as it was, and so do
/// recording and releasing an inbound packet identifier.
pub proof fn lemma_waiters_do_not_collide(
    state: CacheState,
    client_id: Seq<char>,
    pkid: u16,
    packet: QosAckPacketInfo,
    now: u64,
    other_client: Seq<char>,
    other_pkid: u16,
)
    requires
        client_id != other_client || pkid != other_pkid,
    ensures
        pkid_key(client_id, pkid) != pkid_key(other_client, other_pkid),
        state.add_ack_packet(client_id, pkid, packet).ack_waiters.dom().contains(
            pkid_key(other_client, other_pkid),
        ) == state.ack_waiters.dom().contains(pkid_key(other_client, other_pkid)),
        state.add_ack_packet(client_id, pkid, packet).ack_waiters[pkid_key(other_client, other_pkid)]
            == state.ack_waiters[pkid_key(other_client, other_pkid)],
        state.remove_ack_packet(client_id, pkid).ack_waiters.dom().contains(
            pkid_key(other_client, other_pkid),
        ) == state.ack_waiters.dom().contains(pkid_key(other_client, other_pkid)),
        state.add_client_pkid(client_id, pkid, now).inbound_pkids.dom().contains(
            pkid_key(other_client, other_pkid),
        ) == state.inbound_pkids.dom().contains(pkid_key(other_client, other_pkid)),
        state.delete_client_pkid(client_id, pkid).inbound_pkids.dom().contains(
            pkid_key(other_client, other_pkid),
        ) == state.inbound_pkids.dom().contains(pkid_key(other_client, other_pkid)),
{
    if pkid_key(client_id, pkid) == pkid_key(other_client, other_pkid) {
        lemma_key_is_injective(client_id, pkid, other_client, other_pkid);
    }
}

/// A limit that the client asks for is capped by the cluster's: the connection
/// gets the smaller of the two, which is the client's wish where it lies below
/// the cap and the cap where it does not.
pub proof fn lemma_caps_clamp(requested_u16: u16, cap_u16: u16, requested_u32: u32, cap_u32: u32)
    ensures
        capped_u16(Some(requested_u16), cap_u16) <= cap_u16,
        capped_u16(Some(requested_u16), cap_u16) <= requested_u16,
        requested_u16 <= cap_u16 ==> capped_u16(Some(requested_u16), cap_u16) == requested_u16,
        cap_u16 < requested_u16 ==> capped_u16(Some(requested_u16), cap_u16) == cap_u16,
        capped_u16(None, cap_u16) == cap_u16,
        capped_u32(Some(requested_u32), cap_u32) <= cap_u32,
        capped_u32(Some(requested_u32), cap_u32) <= requested_u32,
        requested_u32 <= cap_u32 ==> capped_u32(Some(requested_u32), cap_u32) == requested_u32,
        cap_u32 < requested_u32 ==> capped_u32(Some(requested_u32), cap_u32) == cap_u32,
        capped_u32(None, cap_u32) == cap_u32,
{
}

} // verus!
