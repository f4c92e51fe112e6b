//! The cache manager: the registries of the broker and the operations that
//! the packet layer and the control plane perform on them.

use crate::acl::{request_of, AclMetadata, MQTTAcl, MQTTAclAction, MQTTAclBlackList};
use crate::clock::now_second;
use crate::connection::Connection;
use crate::error::CoreError;
use crate::keep_alive::ConnectionLiveTime;
use crate::metadata::{
    payload_view, MQTTAclPermission, MQTTClusterDynamicConfig, MQTTSession,
    MQTTTopic, MQTTUser,
};
use crate::pkid::{exhausted, PkidPool};
use crate::protocol::{
    properties_view, MQTTProtocol, PublishProperties, Subscribe, SubscribeData,
    SubscribeDataView, SubscribeProperties,
};
use crate::qos::{ClientPkidData, QosAckPackageType, QosAckPacketInfo};
use crate::registry::{IdIndex, NameIndex, Record, Registry};
use crate::state::CacheState;
use crate::text::{client_key_prefix, composite_key, lemma_string_set_push, pkid_key, string_set};
use vstd::prelude::*;

verus! {

/// What a change of cached metadata does.
#[derive(Clone, Copy, Debug, PartialEq, Eq, Structural)]
pub enum MetadataCacheAction {
    Put,
    Del,
}

/// The kind of metadata that a change speaks of.
#[derive(Clone, Copy, Debug, PartialEq, Eq, Structural)]
pub enum MetadataCacheType {
    Cluster,
    User,
    Topic,
}

/// A change of cached metadata as it arrives: the action, the kind, and the
/// changed record in its encoded form.
#[derive(Debug)]
pub struct MetadataChangeData {
    pub action: MetadataCacheAction,
    pub data_type: MetadataCacheType,
    pub value: String,
}

/// The registries of the broker.
pub struct CacheManager {
    cluster_name: String,
    cluster_info: Option<MQTTClusterDynamicConfig>,
    /// (username, user)
    user_info: Registry<NameIndex, MQTTUser>,
    /// (client id, session)
    session_info: Registry<NameIndex, MQTTSession>,
    /// (client id, (filter path, subscription))
    subscribe_filter: Registry<NameIndex, Registry<NameIndex, SubscribeData>>,
    /// (client id, outbound packet identifiers in flight)
    publish_pkid_info: Registry<NameIndex, PkidPool>,
    /// (connection id, connection)
    connection_info: Registry<IdIndex, Connection>,
    /// (topic name, topic)
    topic_info: Registry<NameIndex, MQTTTopic>,
    /// (topic id, topic name)
    topic_id_name: Registry<NameIndex, String>,
    /// (client id, last heartbeat)
    heartbeat_data: Registry<NameIndex, ConnectionLiveTime>,
    /// (client id and packet identifier, waiter)
    qos_ack_packet: Registry<NameIndex, QosAckPacketInfo>,
    /// (client id and packet identifier, inbound record)
    client_pkid_data: Registry<NameIndex, ClientPkidData>,
    acl_metadata: AclMetadata,
    /// (resource, sequence number of the last change applied to it)
    applied: Registry<NameIndex, u64>,
}

impl View for CacheManager {
    type V = CacheState;

    closed spec fn view(&self) -> CacheState {
        CacheState {
            cluster_name: self.cluster_name@,
            cluster: self.cluster_info,
            users: self.user_info@,
            sessions: self.session_info@,
            subscriptions: self.subscribe_filter@,
            pkids: self.publish_pkid_info@,
            connections: self.connection_info@,
            topics: self.topic_info@,
            topic_names: self.topic_id_name@,
            heartbeats: self.heartbeat_data@,
            ack_waiters: self.qos_ack_packet@,
            inbound_pkids: self.client_pkid_data@,
            acl: self.acl_metadata@,
            applied: self.applied@,
        }
    }
}

impl CacheManager {
    /// The registries are well-formed and the state is consistent.
    pub closed spec fn wf(&self) -> bool {
        &&& self.user_info.wf()
        &&& self.session_info.wf()
        &&& self.subscribe_filter.wf()
        &&& self.publish_pkid_info.wf()
        &&& self.connection_info.wf()
        &&& self.topic_info.wf()
        &&& self.topic_id_name.wf()
        &&& self.heartbeat_data.wf()
        &&& self.qos_ack_packet.wf()
        &&& self.client_pkid_data.wf()
        &&& self.acl_metadata.wf()
        &&& self.applied.wf()
        &&& self@.consistent()
    }

    /// A well-formed cache is in a state that is consistent.
    pub proof fn lemma_consistent(&self)
        requires
            self.wf(),
        ensures
            self@.consistent(),
    {
    }

    /// A cache that holds nothing, for the cluster `cluster_name`.
    pub fn new(cluster_name: String) -> (cache: CacheManager)
        ensures
            cache.wf(),
            cache@ == CacheState::empty(cluster_name@),
    {
        CacheManager {
            cluster_name,
            cluster_info: None,
            user_info: Registry::new(),
            session_info: Registry::new(),
            subscribe_filter: Registry::new(),
            publish_pkid_info: Registry::new(),
            connection_info: Registry::new(),
            topic_info: Registry::new(),
            topic_id_name: Registry::new(),
            heartbeat_data: Registry::new(),
            qos_ack_packet: Registry::new(),
            client_pkid_data: Registry::new(),
            acl_metadata: AclMetadata::new(),
            applied: Registry::new(),
        }
    }

    /// Replaces the cluster's settings.
    pub fn set_cluster_info(&mut self, cluster: MQTTClusterDynamicConfig)
        requires
            old(self).wf(),
        ensures
            final(self).wf(),
            final(self)@ == old(self)@.set_cluster_info(cluster),
    {
        self.cluster_info = Some(cluster);
    }

    /// The cluster's settings; those of a new cluster where none were set.
    pub fn get_cluster_info(&self) -> (cluster: MQTTClusterDynamicConfig)
        ensures
            cluster == self@.cluster_info(),
    {
        match self.cluster_info {
            Some(cluster) => cluster,
            None => MQTTClusterDynamicConfig::new(),
        }
    }

    /// Stores `user` under its name, in place of the user that had the name.
    pub fn add_user(&mut self, user: MQTTUser)
        requires
            old(self).wf(),
        ensures
            final(self).wf(),
            final(self)@ == old(self)@.add_user(user@),
    {
        let username = user.username.clone();
        self.user_info.insert(username, user);
    }

    /// Removes the user named `username`, if there is one.
    pub fn del_user(&mut self, username: &String)
        requires
            old(self).wf(),
        ensures
            final(self).wf(),
            final(self)@ == old(self)@.del_user(username@),
    {
        let _ = self.user_info.remove(username);
    }

    /// The user named `username`, if there is one.
    pub fn get_user(&self, username: &String) -> (user: Option<MQTTUser>)
        requires
            self.wf(),
        ensures
            user is Some == self@.users.dom().contains(username@),
            user matches Some(found) ==> found@ == self@.users[username@],
    {
        match self.user_info.get(username) {
            Some(user) => Some(user.clone()),
            None => None,
        }
    }

    /// Stores `session` under `client_id`, in place of the session that was there.
    pub fn add_session(&mut self, client_id: String, session: MQTTSession)
        requires
            old(self).wf(),
        ensures
            final(self).wf(),
            final(self)@ == old(self)@.add_session(client_id@, session@),
    {
        self.session_info.insert(client_id, session);
    }

    /// The session of `client_id`, if there is one.
    pub fn get_session_info(&self, client_id: &String) -> (session: Option<MQTTSession>)
        requires
            self.wf(),
        ensures
            session is Some == self@.sessions.dom().contains(client_id@),
            session matches Some(found) ==> found@ == self@.sessions[client_id@],
    {
        match self.session_info.get(client_id) {
            Some(session) => Some(session.clone()),
            None => None,
        }
    }

    /// The connection that the session of `client_id` is attached to, if any.
    pub fn get_connect_id(&self, client_id: &String) -> (connect_id: Option<u64>)
        requires
            self.wf(),
        ensures
            connect_id == self@.connect_id_of(client_id@),
    {
        match self.session_info.get(client_id) {
            Some(session) => session.connection_id,
            None => None,
        }
    }

    /// Attaches the session of `client_id` to a connection, or, with no
    /// connection id, detaches it and records `now` as the time of detachment.
    ///
    /// Attaching is refused where the client has no session (`UnknownClient`) and
    /// where the session is attached to another connection (`AlreadyBound`);
    /// attaching to the connection it is attached to changes nothing. Detaching
    /// is refused where the client has no session. A refusal changes nothing.
    pub fn update_session_connect_id_at(
        &mut self,
        client_id: &String,
        connect_id: Option<u64>,
        now: u64,
    ) -> (updated: Result<(), CoreError>)
        requires
            old(self).wf(),
        ensures
            final(self).wf(),
            updated == session_update_outcome(old(self)@, client_id@, connect_id),
            final(self)@ == session_update_state(old(self)@, client_id@, connect_id, now),
    {
        match self.session_info.remove(client_id) {
            None => Err(CoreError::UnknownClient),
            Some(mut session) => {
                let outcome = match connect_id {
                    Some(id) => {
                        let free = match session.connection_id {
                            Some(bound) => bound == id,
                            None => true,
                        };
                        if free {
                            session.update_connnction_id(Some(id));
                            Ok(())
                        } else {
                            Err(CoreError::AlreadyBound)
                        }
                    },
                    None => {
                        session.update_connnction_id(None);
                        session.update_distinct_time(now);
                        Ok(())
                    },
                };
                self.session_info.insert(client_id.clone(), session);
                assert(self@.sessions =~= session_update_state(
                    old(self)@,
                    client_id@,
                    connect_id,
                    now,
                ).sessions);
                outcome
            },
        }
    }

    /// As [`CacheManager::update_session_connect_id_at`], at the current time.
    pub fn update_session_connect_id(&mut self, client_id: &String, connect_id: Option<u64>) -> (updated:
        Result<(), CoreError>)
        requires
            old(self).wf(),
        ensures
            final(self).wf(),
            updated == session_update_outcome(old(self)@, client_id@, connect_id),
            exists|now: u64|
                final(self)@ == session_update_state(old(self)@, client_id@, connect_id, now),
    {
        let now = now_second();
        self.update_session_connect_id_at(client_id, connect_id, now)
    }

    /// Registers `conn` under `connect_id` and attaches the session of its client
    /// to it. Refused, with nothing changed, where the client has no session
    /// (`UnknownClient`) or its session is attached to another connection
    /// (`AlreadyBound`).
    pub fn add_connection(&mut self, connect_id: u64, conn: Connection) -> (added: Result<(), CoreError>)
        requires
            old(self).wf(),
            conn.wf(),
        ensures
            final(self).wf(),
            added == session_update_outcome(old(self)@, conn@.client_id, Some(connect_id)),
            added is Ok ==> final(self)@ == old(self)@.add_connection(connect_id, conn@),
            added is Err ==> final(self)@ == old(self)@,
    {
        let bound = self.update_session_connect_id_at(&conn.client_id, Some(connect_id), 0);
        match bound {
            Ok(()) => {
                self.connection_info.insert(connect_id, conn);
                Ok(())
            },
            Err(e) => Err(e),
        }
    }

    /// Removes the connection under `connect_id`, if there is one.
    pub fn remove_connection(&mut self, connect_id: u64)
        requires
            old(self).wf(),
        ensures
            final(self).wf(),
            final(self)@ == old(self)@.remove_connection(connect_id),
    {
        let _ = self.connection_info.remove(&connect_id);
    }

    /// A copy of the connection under `connect_id`, if there is one.
    pub fn get_connection(&self, connect_id: u64) -> (connection: Option<Connection>)
        requires
            self.wf(),
        ensures
            connection is Some == self@.connections.dom().contains(connect_id),
            connection matches Some(found) ==> found@ == self@.connections[connect_id] && found.wf(),
    {
        match self.connection_info.get(&connect_id) {
            Some(conn) => Some(conn.snapshot()),
            None => None,
        }
    }

    /// Marks the connection under `connect_id` as logged in as `user_name`.
    /// Refused with `UnknownConnection` where there is no such connection.
    pub fn login_success(&mut self, connect_id: u64, user_name: String) -> (marked: Result<(), CoreError>)
        requires
            old(self).wf(),
        ensures
            final(self).wf(),
            old(self)@.connections.dom().contains(connect_id) ==> marked == Ok::<(), CoreError>(())
                && final(self)@ == old(self)@.login_success(connect_id, user_name@),
            !old(self)@.connections.dom().contains(connect_id) ==> marked == Err::<(), CoreError>(
                CoreError::UnknownConnection,
            ) && final(self)@ == old(self)@,
    {
        match self.connection_info.remove(&connect_id) {
            Some(mut conn) => {
                conn.login_success(user_name);
                self.connection_info.insert(connect_id, conn);
                assert(self@.connections =~= old(self)@.login_success(connect_id, user_name@).connections);
                Ok(())
            },
            None => Err(CoreError::UnknownConnection),
        }
    }

    /// Whether the connection under `connect_id` exists and has logged in.
    pub fn is_login(&self, connect_id: u64) -> (logged_in: bool)
        requires
            self.wf(),
        ensures
            logged_in == (self@.connections.dom().contains(connect_id)
                && self@.connections[connect_id].is_login),
    {
        match self.connection_info.get(&connect_id) {
            Some(conn) => conn.is_login,
            None => false,
        }
    }

    /// Passes where the connection under `connect_id` has logged in; fails with
    /// `UnknownConnection` where there is none, with `NotLoggedIn` where it has not.
    pub fn check_login(&self, connect_id: u64) -> (checked: Result<(), CoreError>)
        requires
            self.wf(),
        ensures
            checked == (if !self@.connections.dom().contains(connect_id) {
                Err::<(), CoreError>(CoreError::UnknownConnection)
            } else if !self@.connections[connect_id].is_login {
                Err::<(), CoreError>(CoreError::NotLoggedIn)
            } else {
                Ok::<(), CoreError>(())
            }),
    {
        match self.connection_info.get(&connect_id) {
            Some(conn) => if conn.is_login {
                Ok(())
            } else {
                Err(CoreError::NotLoggedIn)
            },
            None => Err(CoreError::UnknownConnection),
        }
    }
}

impl CacheManager {
    /// Stores a copy of `topic` under `topic_name`, and the name under the topic's id.
    pub fn add_topic(&mut self, topic_name: &String, topic: &MQTTTopic)
        requires
            old(self).wf(),
        ensures
            final(self).wf(),
            final(self)@ == old(self)@.add_topic(topic_name@, topic@),
    {
        let t = topic.clone();
        let topic_id = t.topic_id.clone();
        self.topic_info.insert(topic_name.clone(), t);
        self.topic_id_name.insert(topic_id, topic_name.clone());
    }

    /// Removes the topic `topic_name` and the entry of its id.
    pub fn remove_topic(&mut self, topic_name: &String)
        requires
            old(self).wf(),
        ensures
            final(self).wf(),
            final(self)@ == old(self)@.remove_topic(topic_name@),
    {
        if let Some(topic) = self.topic_info.remove(topic_name) {
            let _ = self.topic_id_name.remove(&topic.topic_id);
        }
    }

    /// Replaces the retained message of the topic `topic_name`; nothing happens
    /// where the cache does not hold the topic.
    pub fn update_topic_retain_message(&mut self, topic_name: &String, retain_message: Option<Vec<u8>>)
        requires
            old(self).wf(),
        ensures
            final(self).wf(),
            final(self)@ == old(self)@.update_topic_retain_message(
                topic_name@,
                payload_view(retain_message),
            ),
    {
        if let Some(mut topic) = self.topic_info.remove(topic_name) {
            topic.retain_message = retain_message;
            self.topic_info.insert(topic_name.clone(), topic);
            assert(self@.topics =~= old(self)@.update_topic_retain_message(
                topic_name@,
                payload_view(retain_message),
            ).topics);
        }
    }

    /// Whether the cache holds a topic named `topic`.
    pub fn topic_exists(&self, topic: &String) -> (held: bool)
        ensures
            held == self@.topics.dom().contains(topic@),
    {
        self.topic_info.contains_key(topic)
    }

    /// The name of the topic with the id `topic_id`, if the cache holds one.
    pub fn topic_name_by_id(&self, topic_id: String) -> (topic_name: Option<String>)
        requires
            self.wf(),
        ensures
            topic_name is Some == self@.topic_names.dom().contains(topic_id@),
            topic_name matches Some(name) ==> name@ == self@.topic_names[topic_id@],
    {
        match self.topic_id_name.get(&topic_id) {
            Some(name) => Some(name.clone()),
            None => None,
        }
    }

    /// A copy of the topic named `topic_name`, if the cache holds one.
    pub fn get_topic_by_name(&self, topic_name: &String) -> (topic: Option<MQTTTopic>)
        requires
            self.wf(),
        ensures
            topic is Some == self@.topics.dom().contains(topic_name@),
            topic matches Some(found) ==> found@ == self@.topics[topic_name@],
    {
        match self.topic_info.get(topic_name) {
            Some(topic) => Some(topic.clone()),
            None => None,
        }
    }

    /// The topic that `topic_alias` stands for on the connection `connect_id`.
    pub fn get_topic_alias(&self, connect_id: u64, topic_alias: u16) -> (topic_name: Option<String>)
        requires
            self.wf(),
        ensures
            topic_name is Some == self@.alias_is_set(connect_id, topic_alias),
            topic_name matches Some(name) ==> name@
                == self@.connections[connect_id].topic_alias[topic_alias],
    {
        match self.connection_info.get(&connect_id) {
            Some(conn) => conn.get_topic_alias(topic_alias),
            None => None,
        }
    }

    /// Whether `topic_alias` is set on the connection `connect_id`.
    pub fn topic_alias_exists(&self, connect_id: u64, topic_alias: u16) -> (set: bool)
        requires
            self.wf(),
        ensures
            set == self@.alias_is_set(connect_id, topic_alias),
    {
        match self.connection_info.get(&connect_id) {
            Some(conn) => conn.topic_alias_exists(topic_alias),
            None => false,
        }
    }

    /// Lets the alias that `publish_properties` carry stand for `topic_name` on
    /// the connection `connect_id`. Properties without an alias change nothing.
    /// Refused, with nothing changed, where there is no such connection
    /// (`UnknownConnection`) or the alias is zero or above the connection's
    /// limit (`AliasOutOfRange`).
    pub fn add_topic_alias(
        &mut self,
        connect_id: u64,
        topic_name: &String,
        publish_properties: &Option<PublishProperties>,
    ) -> (added: Result<(), CoreError>)
        requires
            old(self).wf(),
        ensures
            final(self).wf(),
            added == alias_outcome(old(self)@, connect_id, carried_alias(*publish_properties)),
            final(self)@ == alias_state(
                old(self)@,
                connect_id,
                topic_name@,
                carried_alias(*publish_properties),
            ),
    {
        let alias = match publish_properties {
            Some(properties) => match properties.topic_alias {
                Some(alias) => alias,
                None => {
                    return Ok(());
                },
            },
            None => {
                return Ok(());
            },
        };
        match self.connection_info.remove(&connect_id) {
            None => Err(CoreError::UnknownConnection),
            Some(mut conn) => {
                let ghost before = conn@;
                let outcome = conn.set_topic_alias(alias, topic_name.clone());
                self.connection_info.insert(connect_id, conn);
                proof {
                    assert(before.aliases_in_range());
                    assert(self@.connections =~= alias_state(
                        old(self)@,
                        connect_id,
                        topic_name@,
                        Some(alias),
                    ).connections);
                }
                outcome
            },
        }
    }

    /// Stores the subscriptions that `subscribe` asks for under `client_id`, each
    /// under the path of its filter and in place of the one that was there.
    /// Refused with `UnknownClient`, and nothing changed, where the client has
    /// no session.
    pub fn add_client_subscribe(
        &mut self,
        client_id: String,
        protocol: MQTTProtocol,
        subscribe: Subscribe,
        subscribe_properties: Option<SubscribeProperties>,
    ) -> (added: Result<(), CoreError>)
        requires
            old(self).wf(),
        ensures
            final(self).wf(),
            old(self)@.sessions.dom().contains(client_id@) ==> added == Ok::<(), CoreError>(())
                && final(self)@ == old(self)@.add_subscriptions(
                client_id@,
                subscription_batch(protocol, subscribe, subscribe_properties),
            ),
            !old(self)@.sessions.dom().contains(client_id@) ==> added == Err::<(), CoreError>(
                CoreError::UnknownClient,
            ) && final(self)@ == old(self)@,
    {
        if !self.session_info.contains_key(&client_id) {
            return Err(CoreError::UnknownClient);
        }
        let ghost batch = subscription_batch(protocol, subscribe, subscribe_properties);
        if subscribe.filters.len() == 0 {
            assert(batch.len() == 0);
            return Ok(());
        }
        let mut bucket: Registry<NameIndex, SubscribeData> = match self.subscribe_filter.remove(
            &client_id,
        ) {
            Some(bucket) => bucket,
            None => Registry::new(),
        };
        let mut i: usize = 0;
        while i < subscribe.filters.len()
            invariant
                i <= subscribe.filters@.len(),
                bucket.wf(),
                batch == subscription_batch(protocol, subscribe, subscribe_properties),
                bucket@ == old(self)@.add_subscriptions(client_id@, batch.take(i as int)).subscriptions_of(
                    client_id@,
                ),
                i > 0 ==> old(self)@.add_subscriptions(client_id@, batch.take(i as int)).subscriptions
                    == old(self)@.subscriptions.insert(client_id@, bucket@),
            decreases subscribe.filters@.len() - i,
        {
            let filter = subscribe.filters[i].clone();
            let properties = match &subscribe_properties {
                Some(p) => Some(p.clone()),
                None => None,
            };
            let data = SubscribeData { protocol, filter, subscribe_properties: properties };
            let path = data.filter.path.clone();
            proof {
                assert(data@ == batch[i as int]);
                assert(batch.take(i + 1).drop_last() =~= batch.take(i as int));
                assert(batch.take(i + 1).last() == batch[i as int]);
                let before = old(self)@.add_subscriptions(client_id@, batch.take(i as int));
                old(self)@.lemma_add_subscriptions_frame(client_id@, batch.take(i as int));
                if i == 0 {
                    assert(batch.take(0).len() == 0);
                    assert(before == old(self)@);
                }
                assert(before.subscriptions.insert(
                    client_id@,
                    before.subscriptions_of(client_id@).insert(data@.filter.path, data@),
                ) =~= old(self)@.subscriptions.insert(client_id@, bucket@.insert(path@, data@)));
            }
            bucket.insert(path, data);
            i += 1;
        }
        self.subscribe_filter.insert(client_id, bucket);
        proof {
            assert(batch.take(batch.len() as int) =~= batch);
            let after = old(self)@.add_subscriptions(client_id@, batch);
            old(self)@.lemma_add_subscriptions_frame(client_id@, batch);
            assert(self@ =~= after);
        }
        Ok(())
    }

    /// Removes the subscriptions of `client_id` under the paths in `filters`;
    /// paths that are not subscribed are passed over.
    pub fn remove_filter_by_pkid(&mut self, client_id: &String, filters: &Vec<String>)
        requires
            old(self).wf(),
        ensures
            final(self).wf(),
            final(self)@ == old(self)@.remove_filters(client_id@, string_set(filters@)),
    {
        if let Some(mut bucket) = self.subscribe_filter.remove(client_id) {
            let ghost whole = bucket@;
            let mut i: usize = 0;
            while i < filters.len()
                invariant
                    i <= filters@.len(),
                    bucket.wf(),
                    bucket@ == whole.remove_keys(string_set(filters@.take(i as int))),
                decreases filters@.len() - i,
            {
                let _ = bucket.remove(&filters[i]);
                proof {
                    assert(filters@.take(i + 1) =~= filters@.take(i as int).push(filters@[i as int]));
                    lemma_string_set_push(filters@.take(i as int), filters@[i as int]);
                    assert(bucket@ =~= whole.remove_keys(string_set(filters@.take(i + 1))));
                }
                i += 1;
            }
            self.subscribe_filter.insert(client_id.clone(), bucket);
            proof {
                assert(filters@.take(filters@.len() as int) =~= filters@);
                assert(self@.subscriptions =~= old(self)@.remove_filters(
                    client_id@,
                    string_set(filters@),
                ).subscriptions);
            }
        }
    }

    /// Removes every subscription of `client_id`.
    pub fn remove_filter_by_client_id(&mut self, client_id: String)
        requires
            old(self).wf(),
        ensures
            final(self).wf(),
            final(self)@ == old(self)@.remove_filter_by_client_id(client_id@),
    {
        let _ = self.subscribe_filter.remove(&client_id);
    }

    /// Whether `path` is not among the subscriptions of `client_id`.
    pub fn is_new_sub(&self, client_id: &String, path: &String) -> (fresh: bool)
        requires
            self.wf(),
        ensures
            fresh == self@.is_new_sub(client_id@, path@),
    {
        match self.subscribe_filter.get(client_id) {
            Some(bucket) => !bucket.contains_key(path),
            None => true,
        }
    }

    /// A copy of the subscription of `client_id` under `path`, if there is one.
    pub fn get_subscribe(&self, client_id: &String, path: &String) -> (data: Option<SubscribeData>)
        requires
            self.wf(),
        ensures
            data is Some == !self@.is_new_sub(client_id@, path@),
            data matches Some(found) ==> found@ == self@.subscriptions_of(client_id@)[path@],
    {
        match self.subscribe_filter.get(client_id) {
            Some(bucket) => match bucket.get(path) {
                Some(found) => Some(found.clone()),
                None => None,
            },
            None => None,
        }
    }
}

/// What a client that asks for a packet identifier is told.
#[derive(Clone, Copy, Debug, PartialEq, Eq, Structural)]
pub enum PkidGrant {
    /// The identifier is the client's; it is now in flight.
    Granted(u16),
    /// No identifier is free; ask again after so many milliseconds.
    RetryAfter(u64),
    /// No identifier is free and the deadline has passed.
    Exhausted,
}

impl PkidGrant {
    /// The grant as the result of the wait so far: the identifier, nothing yet,
    /// or the error `PkidExhausted`.
    pub fn outcome(self) -> (result: Result<Option<u16>, CoreError>)
        ensures
            result == (match self {
                PkidGrant::Granted(pkid) => Ok::<Option<u16>, CoreError>(Some(pkid)),
                PkidGrant::RetryAfter(_) => Ok::<Option<u16>, CoreError>(None),
                PkidGrant::Exhausted => Err::<Option<u16>, CoreError>(CoreError::PkidExhausted),
            }),
    {
        match self {
            PkidGrant::Granted(pkid) => Ok(Some(pkid)),
            PkidGrant::RetryAfter(_) => Ok(None),
            PkidGrant::Exhausted => Err(CoreError::PkidExhausted),
        }
    }
}

/// How long a client waits before it asks again for a packet identifier, in
/// milliseconds.
pub const PKID_RETRY_DELAY_MS: u64 = 10;

impl CacheManager {
    /// Grants `client_id` the smallest packet identifier from 1 to 65535 that it
    /// has not in flight, and takes it into the client's pool. Grants nothing,
    /// and changes nothing, where all 65535 are in flight.
    pub fn get_pkid(&mut self, client_id: &String) -> (granted: Option<u16>)
        requires
            old(self).wf(),
        ensures
            final(self).wf(),
            match granted {
                Some(pkid) => old(self)@.next_pkid(client_id@, pkid) && final(self)@ == old(
                    self,
                )@.hold_pkid(client_id@, pkid),
                None => exhausted(old(self)@.pkids_of(client_id@)) && final(self)@ == old(self)@,
            },
    {
        let mut pool = match self.publish_pkid_info.remove(client_id) {
            Some(pool) => pool,
            None => PkidPool::new(),
        };
        let ghost before = pool@;
        assert(before == old(self)@.pkids_of(client_id@));
        let granted = pool.acquire();
        proof {
            pool.lemma_bounds();
            if granted is None {
                assert(before.contains(1));
                assert(old(self)@.pkids.dom().contains(client_id@));
            }
        }
        self.publish_pkid_info.insert(client_id.clone(), pool);
        proof {
            match granted {
                Some(pkid) => {
                    assert(self@.pkids =~= old(self)@.hold_pkid(client_id@, pkid).pkids);
                },
                None => {
                    assert(self@.pkids =~= old(self)@.pkids);
                },
            }
        }
        granted
    }

    /// One step of a client's wait for a packet identifier: the identifier where
    /// one is free; else the delay after which to ask again, while `now` lies
    /// before `deadline`; else the news that none is to be had.
    pub fn acquire_pkid(&mut self, client_id: &String, now: u64, deadline: u64) -> (step: PkidGrant)
        requires
            old(self).wf(),
        ensures
            final(self).wf(),
            match step {
                PkidGrant::Granted(pkid) => old(self)@.next_pkid(client_id@, pkid) && final(self)@
                    == old(self)@.hold_pkid(client_id@, pkid),
                PkidGrant::RetryAfter(delay) => exhausted(old(self)@.pkids_of(client_id@)) && now
                    < deadline && delay == PKID_RETRY_DELAY_MS && final(self)@ == old(self)@,
                PkidGrant::Exhausted => exhausted(old(self)@.pkids_of(client_id@)) && now >= deadline
                    && final(self)@ == old(self)@,
            },
    {
        match self.get_pkid(client_id) {
            Some(pkid) => PkidGrant::Granted(pkid),
            None => if now < deadline {
                PkidGrant::RetryAfter(PKID_RETRY_DELAY_MS)
            } else {
                PkidGrant::Exhausted
            },
        }
    }

    /// Releases `pkid` from the pool of `client_id`; the other identifiers stay.
    pub fn remove_pkid_info(&mut self, client_id: &String, pkid: u16)
        requires
            old(self).wf(),
        ensures
            final(self).wf(),
            final(self)@ == old(self)@.remove_pkid_info(client_id@, pkid),
    {
        if let Some(mut pool) = self.publish_pkid_info.remove(client_id) {
            pool.release(pkid);
            proof {
                pool.lemma_bounds();
            }
            self.publish_pkid_info.insert(client_id.clone(), pool);
            assert(self@.pkids =~= old(self)@.remove_pkid_info(client_id@, pkid).pkids);
        }
    }

    /// Whether `client_id` has `pkid` in flight.
    pub fn pkid_in_flight(&self, client_id: &String, pkid: u16) -> (held: bool)
        requires
            self.wf(),
        ensures
            held == self@.pkids_of(client_id@).contains(pkid),
    {
        match self.publish_pkid_info.get(client_id) {
            Some(pool) => pool.contains(pkid),
            None => false,
        }
    }

    /// Records the heartbeat of `client_id`, in place of the one before.
    pub fn report_heartbeat(&mut self, client_id: &String, live_time: ConnectionLiveTime)
        requires
            old(self).wf(),
        ensures
            final(self).wf(),
            final(self)@ == old(self)@.report_heartbeat(client_id@, live_time),
    {
        self.heartbeat_data.insert(client_id.clone(), live_time);
    }

    /// Forgets the heartbeat of `client_id`.
    pub fn remove_heartbeat(&mut self, client_id: &String)
        requires
            old(self).wf(),
        ensures
            final(self).wf(),
            final(self)@ == old(self)@.remove_heartbeat(client_id@),
    {
        let _ = self.heartbeat_data.remove(client_id);
    }

    /// The clients that the keep-alive sweeper gives up at time `now`: those
    /// whose last heartbeat lies more than one and a half keep-alive intervals
    /// back. Each is named once.
    pub fn expired_clients(&self, now: u64) -> (clients: Vec<String>)
        requires
            self.wf(),
        ensures
            forall|client_id: Seq<char>|
                string_set(clients@).contains(client_id) <==> self@.is_expired(client_id, now),
            clients@.len() <= self@.heartbeats.dom().len(),
            forall|a: int, b: int| 0 <= a < b < clients@.len() ==> clients@[a]@ != clients@[b]@,
    {
        let mut clients: Vec<String> = Vec::new();
        let mut i: usize = 0;
        proof {
            self.heartbeat_data.lemma_slots();
            self.heartbeat_data.lemma_len();
        }
        let ghost keys = self.heartbeat_data.slot_keys();
        let ghost values = self.heartbeat_data.slot_values();
        while i < self.heartbeat_data.len()
            invariant
                self.wf(),
                i <= keys.len(),
                keys == self.heartbeat_data.slot_keys(),
                values == self.heartbeat_data.slot_values(),
                keys.len() == values.len(),
                clients@.len() <= i,
                keys.no_duplicates(),
                forall|a: int, b: int| 0 <= a < b < clients@.len() ==> clients@[a]@ != clients@[b]@,
                forall|client_id: Seq<char>|
                    string_set(clients@).contains(client_id) <==> (exists|j: int|
                        0 <= j < i && #[trigger] keys[j] == client_id
                            && crate::keep_alive::heartbeat_expired(values[j], now)),
            decreases keys.len() - i,
        {
            let live_time = self.heartbeat_data.value_at(i);
            if live_time.is_expired(now) {
                let client_id = self.heartbeat_data.key_at(i).clone();
                proof {
                    lemma_string_set_push(clients@, client_id);
                    assert forall|a: int| 0 <= a < clients@.len() implies clients@[a]@ != client_id@ by {
                        assert(string_set(clients@).contains(clients@[a]@));
                    }
                }
                clients.push(client_id);
            }
            i += 1;
        }
        proof {
            assert forall|client_id: Seq<char>|
                string_set(clients@).contains(client_id) <==> self@.is_expired(client_id, now) by {
                if self@.is_expired(client_id, now) {
                    let j = choose|j: int| 0 <= j < keys.len() && keys[j] == client_id;
                    assert(keys[j] == client_id);
                }
            }
        }
        clients
    }

    /// Registers `packet` as the waiter for the acknowledgements of the publish
    /// that `client_id` was sent under `pkid`, in place of the waiter before.
    pub fn add_ack_packet(&mut self, client_id: &String, pkid: u16, packet: QosAckPacketInfo)
        requires
            old(self).wf(),
        ensures
            final(self).wf(),
            final(self)@ == old(self)@.add_ack_packet(client_id@, pkid, packet),
    {
        let key = composite_key(client_id, pkid);
        self.qos_ack_packet.insert(key, packet);
    }

    /// Removes the waiter for `(client_id, pkid)`.
    pub fn remove_ack_packet(&mut self, client_id: &String, pkid: u16)
        requires
            old(self).wf(),
        ensures
            final(self).wf(),
            final(self)@ == old(self)@.remove_ack_packet(client_id@, pkid),
    {
        let key = composite_key(client_id, pkid);
        let _ = self.qos_ack_packet.remove(&key);
    }

    /// A copy of the waiter for `(client_id, pkid)`, if one is registered.
    pub fn get_ack_packet(&self, client_id: String, pkid: u16) -> (packet: Option<QosAckPacketInfo>)
        requires
            self.wf(),
        ensures
            packet == (if self@.ack_waiters.dom().contains(pkid_key(client_id@, pkid)) {
                Some(self@.ack_waiters[pkid_key(client_id@, pkid)])
            } else {
                None
            }),
    {
        let key = composite_key(&client_id, pkid);
        match self.qos_ack_packet.get(&key) {
            Some(data) => Some(data.snapshot()),
            None => None,
        }
    }

    /// Hands an acknowledgement of kind `ack_type` to the waiter for
    /// `(client_id, pkid)`. Fails with `UnknownWaiter` exactly where no waiter is
    /// registered; else tells how many receivers the waiter's channel had.
    pub fn notify_ack(&self, client_id: &String, pkid: u16, ack_type: QosAckPackageType) -> (handed:
        Result<usize, CoreError>)
        requires
            self.wf(),
        ensures
            handed is Ok == self@.ack_waiters.dom().contains(pkid_key(client_id@, pkid)),
            handed is Err ==> handed == Err::<usize, CoreError>(CoreError::UnknownWaiter),
    {
        let key = composite_key(client_id, pkid);
        match self.qos_ack_packet.get(&key) {
            Some(waiter) => match waiter.notify(ack_type, pkid) {
                Some(receivers) => Ok(receivers),
                None => Ok(0),
            },
            None => Err(CoreError::UnknownWaiter),
        }
    }

    /// Records the inbound packet identifier `pkid` of `client_id`, received at
    /// time `now`. Fails with `DuplicateInbound`, and keeps the first record,
    /// where the identifier is recorded already.
    pub fn add_client_pkid_at(&mut self, client_id: &String, pkid: u16, now: u64) -> (added: Result<
        (),
        CoreError,
    >)
        requires
            old(self).wf(),
        ensures
            final(self).wf(),
            added == inbound_outcome(old(self)@, client_id@, pkid),
            added is Ok ==> final(self)@ == old(self)@.add_client_pkid(client_id@, pkid, now),
            added is Err ==> final(self)@ == old(self)@,
    {
        let key = composite_key(client_id, pkid);
        if self.client_pkid_data.contains_key(&key) {
            return Err(CoreError::DuplicateInbound);
        }
        self.client_pkid_data.insert(
            key,
            ClientPkidData { client_id: client_id.clone(), create_time: now },
        );
        Ok(())
    }

    /// As [`CacheManager::add_client_pkid_at`], at the current time.
    pub fn add_client_pkid(&mut self, client_id: &String, pkid: u16) -> (added: Result<(), CoreError>)
        requires
            old(self).wf(),
        ensures
            final(self).wf(),
            added == inbound_outcome(old(self)@, client_id@, pkid),
            added is Ok ==> exists|now: u64|
                final(self)@ == old(self)@.add_client_pkid(client_id@, pkid, now),
            added is Err ==> final(self)@ == old(self)@,
    {
        let now = now_second();
        self.add_client_pkid_at(client_id, pkid, now)
    }

    /// Removes the record of the inbound packet identifier `(client_id, pkid)`.
    pub fn delete_client_pkid(&mut self, client_id: &String, pkid: u16)
        requires
            old(self).wf(),
        ensures
            final(self).wf(),
            final(self)@ == old(self)@.delete_client_pkid(client_id@, pkid),
    {
        let key = composite_key(client_id, pkid);
        let _ = self.client_pkid_data.remove(&key);
    }

    /// A copy of the record of the inbound packet identifier `(client_id, pkid)`.
    pub fn get_client_pkid(&self, client_id: &String, pkid: u16) -> (record: Option<ClientPkidData>)
        requires
            self.wf(),
        ensures
            record is Some == self@.inbound_pkids.dom().contains(pkid_key(client_id@, pkid)),
            record matches Some(found) ==> found@ == self@.inbound_pkids[pkid_key(client_id@, pkid)],
    {
        let key = composite_key(client_id, pkid);
        match self.client_pkid_data.get(&key) {
            Some(data) => Some(data.clone()),
            None => None,
        }
    }

    /// Takes the access rule `acl` into the cache.
    pub fn add_acl(&mut self, acl: MQTTAcl)
        requires
            old(self).wf(),
        ensures
            final(self).wf(),
            final(self)@ == old(self)@.add_acl(acl@),
    {
        self.acl_metadata.parse_mqtt_acl(acl);
    }

    /// Takes the access rule `acl` out of the cache.
    pub fn remove_acl(&mut self, acl: &MQTTAcl)
        requires
            old(self).wf(),
        ensures
            final(self).wf(),
            final(self)@ == old(self)@.remove_acl(acl@),
    {
        self.acl_metadata.remove_mqtt_acl(acl);
    }

    /// Takes the blacklist entry `blacklist` into the cache.
    pub fn add_blacklist(&mut self, blacklist: MQTTAclBlackList)
        requires
            old(self).wf(),
        ensures
            final(self).wf(),
            final(self)@ == old(self)@.add_blacklist(blacklist@),
    {
        self.acl_metadata.parse_mqtt_blacklist(blacklist);
    }

    /// Takes the blacklist entry `blacklist` out of the cache.
    pub fn remove_blacklist(&mut self, blacklist: &MQTTAclBlackList)
        requires
            old(self).wf(),
        ensures
            final(self).wf(),
            final(self)@ == old(self)@.remove_blacklist(blacklist@),
    {
        self.acl_metadata.remove_mqtt_blacklist(blacklist);
    }

    /// Decides whether the user `principal`, connected as `client_id` from
    /// `source_ip`, may do `action` on `topic`: a blacklist entry denies; else a
    /// matching deny rule denies; else a matching allow rule allows; else the
    /// cluster's default decides.
    pub fn authorize(
        &self,
        principal: &String,
        client_id: &String,
        source_ip: &String,
        topic: &String,
        action: MQTTAclAction,
    ) -> (decision: MQTTAclPermission)
        requires
            self.wf(),
        ensures
            decision == self@.authorize(request_of(principal@, client_id@, source_ip@, topic@, action)),
    {
        let default = self.get_cluster_info().security.default_permission;
        self.acl_metadata.authorize(default, principal, client_id, source_ip, topic, action)
    }

    /// Passes where [`CacheManager::authorize`] allows the request, and fails
    /// with `Unauthorized` where it denies it.
    pub fn check_authorized(
        &self,
        principal: &String,
        client_id: &String,
        source_ip: &String,
        topic: &String,
        action: MQTTAclAction,
    ) -> (checked: Result<(), CoreError>)
        requires
            self.wf(),
        ensures
            checked == (if self@.authorize(
                request_of(principal@, client_id@, source_ip@, topic@, action),
            ) == MQTTAclPermission::Allow {
                Ok::<(), CoreError>(())
            } else {
                Err::<(), CoreError>(CoreError::Unauthorized)
            }),
    {
        match self.authorize(principal, client_id, source_ip, topic, action) {
            MQTTAclPermission::Allow => Ok(()),
            MQTTAclPermission::Deny => Err(CoreError::Unauthorized),
        }
    }

    /// Removes the session of `client_id` and all that hangs on it: its
    /// subscriptions, its outbound packet identifiers, its heartbeat, and every
    /// waiter and inbound record whose key begins with the client id and an
    /// underscore.
    pub fn remove_session(&mut self, client_id: &String)
        requires
            old(self).wf(),
        ensures
            final(self).wf(),
            final(self)@ == old(self)@.remove_session(client_id@),
    {
        let _ = self.session_info.remove(client_id);
        let _ = self.subscribe_filter.remove(client_id);
        let _ = self.publish_pkid_info.remove(client_id);
        let _ = self.heartbeat_data.remove(client_id);
        let prefix = client_key_prefix(client_id);
        self.qos_ack_packet.remove_prefixed(&prefix);
        self.client_pkid_data.remove_prefixed(&prefix);
        proof {
            let gone = crate::state::keys_of_client(client_id@);
            assert(gone =~= Set::new(|k: Seq<char>| prefix@.is_prefix_of(k)));
            assert(self@ =~= old(self)@.remove_session(client_id@));
        }
    }
}

/// The outcome of recording the inbound packet identifier `(client_id, pkid)`.
pub open spec fn inbound_outcome(state: CacheState, client_id: Seq<char>, pkid: u16) -> Result<
    (),
    CoreError,
> {
    if state.inbound_pkids.dom().contains(pkid_key(client_id, pkid)) {
        Err(CoreError::DuplicateInbound)
    } else {
        Ok(())
    }
}

/// The views of a list of users.
pub open spec fn user_views(users: Seq<MQTTUser>) -> Seq<crate::metadata::UserView> {
    Seq::new(users.len(), |i: int| users[i]@)
}

/// The views of a list of topics.
pub open spec fn topic_views(topics: Seq<MQTTTopic>) -> Seq<crate::metadata::TopicView> {
    Seq::new(topics.len(), |i: int| topics[i]@)
}

/// The views of a list of access rules.
pub open spec fn acl_views(acls: Seq<MQTTAcl>) -> Seq<crate::acl::AclView> {
    Seq::new(acls.len(), |i: int| acls[i]@)
}

/// The views of a list of blacklist entries.
pub open spec fn blacklist_views(entries: Seq<MQTTAclBlackList>) -> Seq<crate::acl::BlackListView> {
    Seq::new(entries.len(), |i: int| entries[i]@)
}

/// The state after a change of cached metadata: a change of kind `User` stores
/// the decoded user, or removes the user of that name; every other change, and
/// a change without a decoded user, leaves the state as it is.
pub open spec fn apply_change(
    state: CacheState,
    action: MetadataCacheAction,
    data_type: MetadataCacheType,
    user: Option<crate::metadata::UserView>,
) -> CacheState {
    match (data_type, user) {
        (MetadataCacheType::User, Some(u)) => match action {
            MetadataCacheAction::Put => state.add_user(u),
            MetadataCacheAction::Del => state.del_user(u.username),
        },
        _ => state,
    }
}

/// The view of a decoded user, if there is one.
pub open spec fn decoded_view(user: Option<MQTTUser>) -> Option<crate::metadata::UserView> {
    match user {
        Some(u) => Some(u@),
        None => None,
    }
}

impl CacheManager {
    fn add_users(&mut self, users: &Vec<MQTTUser>)
        requires
            old(self).wf(),
        ensures
            final(self).wf(),
            final(self)@ == old(self)@.add_users(user_views(users@)),
    {
        let ghost views = user_views(users@);
        let mut i: usize = 0;
        while i < users.len()
            invariant
                self.wf(),
                i <= users@.len(),
                views == user_views(users@),
                self@ == old(self)@.add_users(views.take(i as int)),
            decreases users@.len() - i,
        {
            proof {
                assert(views.take(i + 1).drop_last() =~= views.take(i as int));
                assert(views.take(i + 1).last() == users@[i as int]@);
            }
            self.add_user(users[i].clone());
            i += 1;
        }
        assert(views.take(views.len() as int) =~= views);
    }

    fn add_topics(&mut self, topics: &Vec<MQTTTopic>)
        requires
            old(self).wf(),
        ensures
            final(self).wf(),
            final(self)@ == old(self)@.add_topics(topic_views(topics@)),
    {
        let ghost views = topic_views(topics@);
        let mut i: usize = 0;
        while i < topics.len()
            invariant
                self.wf(),
                i <= topics@.len(),
                views == topic_views(topics@),
                self@ == old(self)@.add_topics(views.take(i as int)),
            decreases topics@.len() - i,
        {
            proof {
                assert(views.take(i + 1).drop_last() =~= views.take(i as int));
                assert(views.take(i + 1).last() == topics@[i as int]@);
            }
            let topic = &topics[i];
            self.add_topic(&topic.topic_name, topic);
            i += 1;
        }
        assert(views.take(views.len() as int) =~= views);
    }

    fn add_acls(&mut self, acls: &Vec<MQTTAcl>)
        requires
            old(self).wf(),
        ensures
            final(self).wf(),
            final(self)@ == old(self)@.add_acls(acl_views(acls@)),
    {
        let ghost views = acl_views(acls@);
        let mut i: usize = 0;
        while i < acls.len()
            invariant
                self.wf(),
                i <= acls@.len(),
                views == acl_views(acls@),
                self@ == old(self)@.add_acls(views.take(i as int)),
            decreases acls@.len() - i,
        {
            proof {
                assert(views.take(i + 1).drop_last() =~= views.take(i as int));
                assert(views.take(i + 1).last() == acls@[i as int]@);
            }
            self.add_acl(acls[i].clone());
            i += 1;
        }
        assert(views.take(views.len() as int) =~= views);
    }

    fn add_blacklists(&mut self, entries: &Vec<MQTTAclBlackList>)
        requires
            old(self).wf(),
        ensures
            final(self).wf(),
            final(self)@ == old(self)@.add_blacklists(blacklist_views(entries@)),
    {
        let ghost views = blacklist_views(entries@);
        let mut i: usize = 0;
        while i < entries.len()
            invariant
                self.wf(),
                i <= entries@.len(),
                views == blacklist_views(entries@),
                self@ == old(self)@.add_blacklists(views.take(i as int)),
            decreases entries@.len() - i,
        {
            proof {
                assert(views.take(i + 1).drop_last() =~= views.take(i as int));
                assert(views.take(i + 1).last() == entries@[i as int]@);
            }
            self.add_blacklist(entries[i].clone());
            i += 1;
        }
        assert(views.take(views.len() as int) =~= views);
    }

    /// Fills the cache with the metadata that was read from the control plane:
    /// the cluster's settings (those of a new cluster where the control plane
    /// holds none), every topic under its name, every user, every access rule
    /// and every blacklist entry.
    pub fn load_metadata_cache(
        &mut self,
        cluster: Option<MQTTClusterDynamicConfig>,
        topics: &Vec<MQTTTopic>,
        users: &Vec<MQTTUser>,
        acls: &Vec<MQTTAcl>,
        blacklists: &Vec<MQTTAclBlackList>,
    )
        requires
            old(self).wf(),
        ensures
            final(self).wf(),
            final(self)@ == old(self)@.load_metadata(
                cluster,
                topic_views(topics@),
                user_views(users@),
                acl_views(acls@),
                blacklist_views(blacklists@),
            ),
    {
        let settings = match cluster {
            Some(config) => config,
            None => MQTTClusterDynamicConfig::new(),
        };
        self.set_cluster_info(settings);
        self.add_topics(topics);
        self.add_users(users);
        self.add_acls(acls);
        self.add_blacklists(blacklists);
    }

    /// Stores the system user, a superuser with the given name and password.
    pub fn init_system_user(&mut self, default_user: String, default_password: String)
        requires
            old(self).wf(),
        ensures
            final(self).wf(),
            final(self)@ == old(self)@.add_user(
                crate::metadata::UserView {
                    username: default_user@,
                    password: default_password@,
                    is_superuser: true,
                },
            ),
    {
        let system_user_info = MQTTUser {
            username: default_user,
            password: default_password,
            is_superuser: true,
        };
        self.add_user(system_user_info);
    }

    /// Applies a change of cached metadata; `user` is the user that the value
    /// of the change encodes, if it encodes one.
    pub fn apply(&mut self, data: &MetadataChangeData, user: Option<MQTTUser>)
        requires
            old(self).wf(),
        ensures
            final(self).wf(),
            final(self)@ == apply_change(old(self)@, data.action, data.data_type, decoded_view(user)),
    {
        match data.data_type {
            MetadataCacheType::User => match user {
                Some(u) => match data.action {
                    MetadataCacheAction::Put => {
                        self.add_user(u);
                    },
                    MetadataCacheAction::Del => {
                        self.del_user(&u.username);
                    },
                },
                None => {},
            },
            MetadataCacheType::Topic => {},
            MetadataCacheType::Cluster => {},
        }
    }
}

impl CacheManager {
    /// The name of the cluster that this broker belongs to.
    pub fn cluster_name(&self) -> (name: &String)
        ensures
            name@ == self@.cluster_name,
    {
        &self.cluster_name
    }

    /// Whether a change with the sequence number `sequence` comes too late for
    /// the resource `key`: a change with that number or a later one was applied.
    pub fn is_stale(&self, key: &String, sequence: u64) -> (stale: bool)
        requires
            self.wf(),
        ensures
            stale == self@.is_stale(key@, sequence),
    {
        match self.applied.get(key) {
            Some(last) => sequence <= *last,
            None => false,
        }
    }

    /// Records `sequence` as the number of the last change applied to `key`.
    pub(crate) fn record_sequence(&mut self, key: String, sequence: u64)
        requires
            old(self).wf(),
        ensures
            final(self).wf(),
            final(self)@ == old(self)@.record_sequence(key@, sequence),
    {
        self.applied.insert(key, sequence);
    }
}

/// The alias that publish properties carry, if any.
pub open spec fn carried_alias(publish_properties: Option<PublishProperties>) -> Option<u16> {
    match publish_properties {
        Some(properties) => properties.topic_alias,
        None => None,
    }
}

/// The outcome of setting `alias` on the connection `connect_id`.
pub open spec fn alias_outcome(state: CacheState, connect_id: u64, alias: Option<u16>) -> Result<
    (),
    CoreError,
> {
    match alias {
        None => Ok(()),
        Some(a) => if !state.connections.dom().contains(connect_id) {
            Err(CoreError::UnknownConnection)
        } else if 1 <= a <= state.connections[connect_id].topic_alias_max {
            Ok(())
        } else {
            Err(CoreError::AliasOutOfRange)
        },
    }
}

/// The state after setting `alias` on the connection `connect_id`; the state
/// as it was where there is no alias or the alias is refused.
pub open spec fn alias_state(
    state: CacheState,
    connect_id: u64,
    topic_name: Seq<char>,
    alias: Option<u16>,
) -> CacheState {
    match alias {
        Some(a) => if alias_outcome(state, connect_id, alias) is Ok {
            state.add_topic_alias(connect_id, a, topic_name)
        } else {
            state
        },
        None => state,
    }
}

/// The subscriptions that a SUBSCRIBE packet asks for, one for each filter.
pub open spec fn subscription_batch(
    protocol: MQTTProtocol,
    subscribe: Subscribe,
    subscribe_properties: Option<SubscribeProperties>,
) -> Seq<SubscribeDataView> {
    Seq::new(
        subscribe.filters@.len(),
        |i: int|
            SubscribeDataView {
                protocol,
                filter: subscribe.filters@[i]@,
                subscribe_properties: properties_view(subscribe_properties),
            },
    )
}

/// The outcome of attaching the session of `client_id` to `connect_id`, or of
/// detaching it where `connect_id` is `None`.
pub open spec fn session_update_outcome(
    state: CacheState,
    client_id: Seq<char>,
    connect_id: Option<u64>,
) -> Result<(), CoreError> {
    if !state.sessions.dom().contains(client_id) {
        Err(CoreError::UnknownClient)
    } else {
        match connect_id {
            Some(id) => if state.may_bind(client_id, id) {
                Ok(())
            } else {
                Err(CoreError::AlreadyBound)
            },
            None => Ok(()),
        }
    }
}

/// The state after attaching the session of `client_id` to `connect_id`, or
/// detaching it at time `now`; the state as it was where that is refused.
pub open spec fn session_update_state(
    state: CacheState,
    client_id: Seq<char>,
    connect_id: Option<u64>,
    now: u64,
) -> CacheState {
    if session_update_outcome(state, client_id, connect_id) is Ok {
        match connect_id {
            Some(id) => state.bind(client_id, id),
            None => state.unbind(client_id, now),
        }
    } else {
        state
    }
}

} // verus!
