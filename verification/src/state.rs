//! The broker state as a mathematical value, and what each operation of the
//! cache does to it.

use crate::acl::{AclRequest, AclState, AclView, BlackListView};
use crate::connection::ConnectionView;
use crate::keep_alive::{heartbeat_expired, ConnectionLiveTime};
use crate::metadata::{
    MQTTAclPermission, MQTTClusterDynamicConfig, SessionView, TopicView, UserView,
};
use crate::pkid::is_smallest_free;
use crate::protocol::SubscribeDataView;
use crate::qos::{ClientPkidView, QosAckPacketInfo};
use crate::text::{client_prefix, pkid_key};
use vstd::prelude::*;

verus! {

/// Everything the cache holds.
#[verifier::ext_equal]
pub struct CacheState {
    /// The name of the cluster that this broker belongs to.
    pub cluster_name: Seq<char>,
    /// The cluster's settings, once they were set.
    pub cluster: Option<MQTTClusterDynamicConfig>,
    /// The users, by user name.
    pub users: Map<Seq<char>, UserView>,
    /// The sessions, by client id.
    pub sessions: Map<Seq<char>, SessionView>,
    /// The subscriptions of each client, by filter path.
    pub subscriptions: Map<Seq<char>, Map<Seq<char>, SubscribeDataView>>,
    /// The outbound packet identifiers that each client has in flight.
    pub pkids: Map<Seq<char>, Set<u16>>,
    /// The connections, by connection id.
    pub connections: Map<u64, ConnectionView>,
    /// The topics, by topic name.
    pub topics: Map<Seq<char>, TopicView>,
    /// The name of each topic, by topic id.
    pub topic_names: Map<Seq<char>, Seq<char>>,
    /// The last heartbeat of each client.
    pub heartbeats: Map<Seq<char>, ConnectionLiveTime>,
    /// The waiters for acknowledgements, by composite key.
    pub ack_waiters: Map<Seq<char>, QosAckPacketInfo>,
    /// The inbound packet identifiers that await their release, by composite key.
    pub inbound_pkids: Map<Seq<char>, ClientPkidView>,
    /// The access rules and the blacklist.
    pub acl: AclState,
    /// The sequence number of the last change applied to each resource.
    pub applied: Map<Seq<char>, u64>,
}

/// The keys of a client's records in the tables with composite keys.
pub open spec fn keys_of_client(client_id: Seq<char>) -> Set<Seq<char>> {
    Set::new(|key: Seq<char>| client_prefix(client_id).is_prefix_of(key))
}

impl CacheState {
    /// The state of a new cache for the cluster `cluster_name`.
    pub open spec fn empty(cluster_name: Seq<char>) -> CacheState {
        CacheState {
            cluster_name,
            cluster: None,
            users: Map::empty(),
            sessions: Map::empty(),
            subscriptions: Map::empty(),
            pkids: Map::empty(),
            connections: Map::empty(),
            topics: Map::empty(),
            topic_names: Map::empty(),
            heartbeats: Map::empty(),
            ack_waiters: Map::empty(),
            inbound_pkids: Map::empty(),
            acl: AclState::empty(),
            applied: Map::empty(),
        }
    }

    /// What holds of every state that the cache reaches.
    pub open spec fn consistent(self) -> bool {
        &&& forall|client_id: Seq<char>| #[trigger]
            self.subscriptions.dom().contains(client_id) ==> self.sessions.dom().contains(client_id)
        &&& forall|client_id: Seq<char>| #[trigger]
            self.pkids.dom().contains(client_id) ==> self.pkids[client_id].finite()
                && self.pkids[client_id].len() <= 65535 && !self.pkids[client_id].contains(0)
        &&& forall|connect_id: u64| #[trigger]
            self.connections.dom().contains(connect_id)
                ==> self.connections[connect_id].aliases_in_range()
    }

    /// The cluster's settings; those of a new cluster where none were set.
    pub open spec fn cluster_info(self) -> MQTTClusterDynamicConfig {
        match self.cluster {
            Some(config) => config,
            None => MQTTClusterDynamicConfig::initial(),
        }
    }

    pub open spec fn set_cluster_info(self, config: MQTTClusterDynamicConfig) -> CacheState {
        CacheState { cluster: Some(config), ..self }
    }

    pub open spec fn add_user(self, user: UserView) -> CacheState {
        CacheState { users: self.users.insert(user.username, user), ..self }
    }

    pub open spec fn del_user(self, username: Seq<char>) -> CacheState {
        CacheState { users: self.users.remove(username), ..self }
    }

    pub open spec fn add_session(self, client_id: Seq<char>, session: SessionView) -> CacheState {
        CacheState { sessions: self.sessions.insert(client_id, session), ..self }
    }

    /// The connection that the session of `client_id` is attached to.
    pub open spec fn connect_id_of(self, client_id: Seq<char>) -> Option<u64> {
        if self.sessions.dom().contains(client_id) {
            self.sessions[client_id].connection_id
        } else {
            None
        }
    }

    /// Whether the session of `client_id` may be attached to `connect_id`: it
    /// exists and is attached to no other connection.
    pub open spec fn may_bind(self, client_id: Seq<char>, connect_id: u64) -> bool {
        self.sessions.dom().contains(client_id) && (self.sessions[client_id].connection_id is None
            || self.sessions[client_id].connection_id == Some(connect_id))
    }

    /// The state after the session of `client_id` was attached to `connect_id`.
    pub open spec fn bind(self, client_id: Seq<char>, connect_id: u64) -> CacheState {
        CacheState {
            sessions: self.sessions.insert(
                client_id,
                SessionView { connection_id: Some(connect_id), ..self.sessions[client_id] },
            ),
            ..self
        }
    }

    /// The state after the session of `client_id` was detached at time `now`.
    pub open spec fn unbind(self, client_id: Seq<char>, now: u64) -> CacheState {
        CacheState {
            sessions: self.sessions.insert(
                client_id,
                SessionView {
                    connection_id: None,
                    distinct_time: Some(now),
                    ..self.sessions[client_id]
                },
            ),
            ..self
        }
    }

    /// The state after `connection` was registered under `connect_id` and the
    /// session of its client was attached to it.
    pub open spec fn add_connection(self, connect_id: u64, connection: ConnectionView) -> CacheState {
        CacheState {
            connections: self.connections.insert(connect_id, connection),
            ..self.bind(connection.client_id, connect_id)
        }
    }

    pub open spec fn remove_connection(self, connect_id: u64) -> CacheState {
        CacheState { connections: self.connections.remove(connect_id), ..self }
    }

    pub open spec fn login_success(self, connect_id: u64, user_name: Seq<char>) -> CacheState {
        CacheState {
            connections: self.connections.insert(
                connect_id,
                self.connections[connect_id].logged_in(user_name),
            ),
            ..self
        }
    }

    pub open spec fn add_topic_alias(self, connect_id: u64, alias: u16, topic_name: Seq<char>) -> CacheState {
        CacheState {
            connections: self.connections.insert(
                connect_id,
                self.connections[connect_id].with_alias(alias, topic_name),
            ),
            ..self
        }
    }

    /// Whether `alias` is set on the connection `connect_id`.
    pub open spec fn alias_is_set(self, connect_id: u64, alias: u16) -> bool {
        self.connections.dom().contains(connect_id)
            && self.connections[connect_id].topic_alias.dom().contains(alias)
    }

    pub open spec fn add_topic(self, topic_name: Seq<char>, topic: TopicView) -> CacheState {
        CacheState {
            topics: self.topics.insert(topic_name, topic),
            topic_names: self.topic_names.insert(topic.topic_id, topic_name),
            ..self
        }
    }

    /// The state after the topic `topic_name` was deleted, its retained message
    /// with it.
    pub open spec fn remove_topic(self, topic_name: Seq<char>) -> CacheState {
        if self.topics.dom().contains(topic_name) {
            CacheState {
                topics: self.topics.remove(topic_name),
                topic_names: self.topic_names.remove(self.topics[topic_name].topic_id),
                ..self
            }
        } else {
            self
        }
    }

    /// The state after the retained message of `topic_name` was replaced; a
    /// topic that the cache does not hold is not created.
    pub open spec fn update_topic_retain_message(
        self,
        topic_name: Seq<char>,
        retain_message: Option<Seq<u8>>,
    ) -> CacheState {
        if self.topics.dom().contains(topic_name) {
            CacheState {
                topics: self.topics.insert(
                    topic_name,
                    TopicView { retain_message, ..self.topics[topic_name] },
                ),
                ..self
            }
        } else {
            self
        }
    }

    /// Whether this state differs from `other` in the subscriptions at most.
    pub open spec fn same_but_subscriptions(self, other: CacheState) -> bool {
        self == (CacheState { subscriptions: self.subscriptions, ..other })
    }

    /// The subscriptions of `client_id`, none where it has no bucket.
    pub open spec fn subscriptions_of(self, client_id: Seq<char>) -> Map<Seq<char>, SubscribeDataView> {
        if self.subscriptions.dom().contains(client_id) {
            self.subscriptions[client_id]
        } else {
            Map::empty()
        }
    }

    /// The state after one subscription of `client_id` was stored under its path.
    pub open spec fn add_subscription(self, client_id: Seq<char>, data: SubscribeDataView) -> CacheState {
        CacheState {
            subscriptions: self.subscriptions.insert(
                client_id,
                self.subscriptions_of(client_id).insert(data.filter.path, data),
            ),
            ..self
        }
    }

    /// The state after the subscriptions in `batch` were stored, first to last.
    pub open spec fn add_subscriptions(self, client_id: Seq<char>, batch: Seq<SubscribeDataView>) -> CacheState
        decreases batch.len(),
    {
        if batch.len() == 0 {
            self
        } else {
            self.add_subscriptions(client_id, batch.drop_last()).add_subscription(
                client_id,
                batch.last(),
            )
        }
    }

    /// Storing subscriptions changes the subscriptions only.
    pub proof fn lemma_add_subscriptions_frame(self, client_id: Seq<char>, batch: Seq<SubscribeDataView>)
        ensures
            self.add_subscriptions(client_id, batch).same_but_subscriptions(self),
        decreases batch.len(),
    {
        if batch.len() > 0 {
            self.lemma_add_subscriptions_frame(client_id, batch.drop_last());
        }
    }

    /// The state after the subscriptions of `client_id` under `paths` were removed.
    pub open spec fn remove_filters(self, client_id: Seq<char>, paths: Set<Seq<char>>) -> CacheState {
        if self.subscriptions.dom().contains(client_id) {
            CacheState {
                subscriptions: self.subscriptions.insert(
                    client_id,
                    self.subscriptions[client_id].remove_keys(paths),
                ),
                ..self
            }
        } else {
            self
        }
    }

    pub open spec fn remove_filter_by_client_id(self, client_id: Seq<char>) -> CacheState {
        CacheState { subscriptions: self.subscriptions.remove(client_id), ..self }
    }

    /// Whether `path` is not among the subscriptions of `client_id`.
    pub open spec fn is_new_sub(self, client_id: Seq<char>, path: Seq<char>) -> bool {
        !self.subscriptions_of(client_id).dom().contains(path)
    }

    /// The outbound packet identifiers that `client_id` has in flight.
    pub open spec fn pkids_of(self, client_id: Seq<char>) -> Set<u16> {
        if self.pkids.dom().contains(client_id) {
            self.pkids[client_id]
        } else {
            Set::empty()
        }
    }

    /// The state after `pkid` was taken into the pool of `client_id`.
    pub open spec fn hold_pkid(self, client_id: Seq<char>, pkid: u16) -> CacheState {
        CacheState { pkids: self.pkids.insert(client_id, self.pkids_of(client_id).insert(pkid)), ..self }
    }

    /// The state after `pkid` was released from the pool of `client_id`.
    pub open spec fn remove_pkid_info(self, client_id: Seq<char>, pkid: u16) -> CacheState {
        if self.pkids.dom().contains(client_id) {
            CacheState {
                pkids: self.pkids.insert(client_id, self.pkids[client_id].remove(pkid)),
                ..self
            }
        } else {
            self
        }
    }

    /// The packet identifier that `client_id` is granted next, if any is free.
    pub open spec fn next_pkid(self, client_id: Seq<char>, pkid: u16) -> bool {
        is_smallest_free(self.pkids_of(client_id), pkid)
    }

    pub open spec fn report_heartbeat(self, client_id: Seq<char>, live_time: ConnectionLiveTime) -> CacheState {
        CacheState { heartbeats: self.heartbeats.insert(client_id, live_time), ..self }
    }

    pub open spec fn remove_heartbeat(self, client_id: Seq<char>) -> CacheState {
        CacheState { heartbeats: self.heartbeats.remove(client_id), ..self }
    }

    /// Whether the keep-alive sweeper gives `client_id` up at time `now`.
    pub open spec fn is_expired(self, client_id: Seq<char>, now: u64) -> bool {
        self.heartbeats.dom().contains(client_id) && heartbeat_expired(self.heartbeats[client_id], now)
    }

    pub open spec fn add_ack_packet(self, client_id: Seq<char>, pkid: u16, packet: QosAckPacketInfo) -> CacheState {
        CacheState { ack_waiters: self.ack_waiters.insert(pkid_key(client_id, pkid), packet), ..self }
    }

    pub open spec fn remove_ack_packet(self, client_id: Seq<char>, pkid: u16) -> CacheState {
        CacheState { ack_waiters: self.ack_waiters.remove(pkid_key(client_id, pkid)), ..self }
    }

    pub open spec fn add_client_pkid(self, client_id: Seq<char>, pkid: u16, now: u64) -> CacheState {
        CacheState {
            inbound_pkids: self.inbound_pkids.insert(
                pkid_key(client_id, pkid),
                ClientPkidView { client_id, create_time: now },
            ),
            ..self
        }
    }

    pub open spec fn delete_client_pkid(self, client_id: Seq<char>, pkid: u16) -> CacheState {
        CacheState { inbound_pkids: self.inbound_pkids.remove(pkid_key(client_id, pkid)), ..self }
    }

    pub open spec fn add_acl(self, acl: AclView) -> CacheState {
        CacheState { acl: self.acl.with_rule(acl), ..self }
    }

    pub open spec fn remove_acl(self, acl: AclView) -> CacheState {
        CacheState { acl: self.acl.without_rule(acl), ..self }
    }

    pub open spec fn add_blacklist(self, entry: BlackListView) -> CacheState {
        CacheState { acl: self.acl.with_blacklist(entry), ..self }
    }

    pub open spec fn remove_blacklist(self, entry: BlackListView) -> CacheState {
        CacheState { acl: self.acl.without_blacklist(entry), ..self }
    }

    /// The decision on `request` under the rules, the blacklist and the
    /// cluster's default.
    pub open spec fn authorize(self, request: AclRequest) -> MQTTAclPermission {
        self.acl.decide(self.cluster_info().security.default_permission, request)
    }

    /// The state after the session of `client_id` was removed with all that
    /// hangs on it: its subscriptions, its outbound packet identifiers, its
    /// heartbeat, and its waiters and inbound records.
    pub open spec fn remove_session(self, client_id: Seq<char>) -> CacheState {
        CacheState {
            sessions: self.sessions.remove(client_id),
            subscriptions: self.subscriptions.remove(client_id),
            pkids: self.pkids.remove(client_id),
            heartbeats: self.heartbeats.remove(client_id),
            ack_waiters: self.ack_waiters.remove_keys(keys_of_client(client_id)),
            inbound_pkids: self.inbound_pkids.remove_keys(keys_of_client(client_id)),
            ..self
        }
    }

    /// The state after the users in `users` were stored, first to last.
    pub open spec fn add_users(self, users: Seq<UserView>) -> CacheState
        decreases users.len(),
    {
        if users.len() == 0 {
            self
        } else {
            self.add_users(users.drop_last()).add_user(users.last())
        }
    }

    /// The state after the topics in `topics` were stored, each under its own
    /// name, first to last.
    pub open spec fn add_topics(self, topics: Seq<TopicView>) -> CacheState
        decreases topics.len(),
    {
        if topics.len() == 0 {
            self
        } else {
            self.add_topics(topics.drop_last()).add_topic(topics.last().topic_name, topics.last())
        }
    }

    /// The state after the rules in `acls` were taken in, first to last.
    pub open spec fn add_acls(self, acls: Seq<AclView>) -> CacheState
        decreases acls.len(),
    {
        if acls.len() == 0 {
            self
        } else {
            self.add_acls(acls.drop_last()).add_acl(acls.last())
        }
    }

    /// The state after the blacklist entries in `entries` were taken in, first to last.
    pub open spec fn add_blacklists(self, entries: Seq<BlackListView>) -> CacheState
        decreases entries.len(),
    {
        if entries.len() == 0 {
            self
        } else {
            self.add_blacklists(entries.drop_last()).add_blacklist(entries.last())
        }
    }

    /// The state after the metadata of the control plane was loaded: the
    /// cluster's settings (those of a new cluster where the control plane holds
    /// none), then the topics, the users, the rules and the blacklist.
    pub open spec fn load_metadata(
        self,
        cluster: Option<MQTTClusterDynamicConfig>,
        topics: Seq<TopicView>,
        users: Seq<UserView>,
        acls: Seq<AclView>,
        blacklists: Seq<BlackListView>,
    ) -> CacheState {
        self.set_cluster_info(
            match cluster {
                Some(config) => config,
                None => MQTTClusterDynamicConfig::initial(),
            },
        ).add_topics(topics).add_users(users).add_acls(acls).add_blacklists(blacklists)
    }

    /// Whether a change numbered `sequence` comes too late for the resource `key`.
    pub open spec fn is_stale(self, key: Seq<char>, sequence: u64) -> bool {
        self.applied.dom().contains(key) && sequence <= self.applied[key]
    }

    pub open spec fn record_sequence(self, key: Seq<char>, sequence: u64) -> CacheState {
        CacheState { applied: self.applied.insert(key, sequence), ..self }
    }

    /// The state after the local part of a disconnect at time `now`: the
    /// connection is gone and the session is detached.
    pub open spec fn disconnect(self, client_id: Seq<char>, connect_id: u64, now: u64) -> CacheState {
        let removed = self.remove_connection(connect_id);
        if removed.sessions.dom().contains(client_id) {
            removed.unbind(client_id, now)
        } else {
            removed
        }
    }
}

} // verus!
