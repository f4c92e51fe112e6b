//! The records that the control plane owns and the core caches: cluster
//! settings, users, sessions and topics.

use crate::registry::Record;
use vstd::prelude::*;

verus! {

/// Whether a request is let through.
#[derive(Clone, Copy, Debug, PartialEq, Eq, Structural)]
pub enum MQTTAclPermission {
    Allow,
    Deny,
}

/// Protocol limits that the cluster sets for every connection.
#[derive(Clone, Copy, Debug, PartialEq, Eq, Structural)]
pub struct MQTTClusterDynamicConfigProtocol {
    pub session_expiry_interval: u32,
    pub topic_alias_max: u16,
    pub max_qos: u8,
    pub max_packet_size: u32,
    pub max_server_keep_alive: u16,
    pub default_server_keep_alive: u16,
    pub receive_max: u16,
    pub max_message_expiry_interval: u64,
    pub client_pkid_persistent: bool,
}

/// Security settings of the cluster.
#[derive(Clone, Copy, Debug, PartialEq, Eq, Structural)]
pub struct MQTTClusterDynamicConfigSecurity {
    pub secret_free_login: bool,
    /// The decision for a request that no access rule matches.
    pub default_permission: MQTTAclPermission,
}

/// The dynamic settings of the cluster.
#[derive(Clone, Copy, Debug, PartialEq, Eq, Structural)]
pub struct MQTTClusterDynamicConfig {
    pub protocol: MQTTClusterDynamicConfigProtocol,
    pub security: MQTTClusterDynamicConfigSecurity,
}

impl MQTTClusterDynamicConfig {
    /// The settings of a cluster for which the control plane holds none.
    pub open spec fn initial() -> MQTTClusterDynamicConfig {
        MQTTClusterDynamicConfig {
            protocol: MQTTClusterDynamicConfigProtocol {
                session_expiry_interval: 1800,
                topic_alias_max: 65535,
                max_qos: 2,
                max_packet_size: 10485760,
                max_server_keep_alive: 3600,
                default_server_keep_alive: 60,
                receive_max: 65535,
                max_message_expiry_interval: 3600,
                client_pkid_persistent: false,
            },
            security: MQTTClusterDynamicConfigSecurity {
                secret_free_login: false,
                default_permission: MQTTAclPermission::Allow,
            },
        }
    }

    pub fn new() -> (config: MQTTClusterDynamicConfig)
        ensures
            config == Self::initial(),
    {
        MQTTClusterDynamicConfig {
            protocol: MQTTClusterDynamicConfigProtocol {
                session_expiry_interval: 1800,
                topic_alias_max: 65535,
                max_qos: 2,
                max_packet_size: 10485760,
                max_server_keep_alive: 3600,
                default_server_keep_alive: 60,
                receive_max: 65535,
                max_message_expiry_interval: 3600,
                client_pkid_persistent: false,
            },
            security: MQTTClusterDynamicConfigSecurity {
                secret_free_login: false,
                default_permission: MQTTAclPermission::Allow,
            },
        }
    }
}

/// A user of the broker.
#[derive(Debug)]
pub struct MQTTUser {
    pub username: String,
    pub password: String,
    pub is_superuser: bool,
}

/// A user as a mathematical value.
pub struct UserView {
    pub username: Seq<char>,
    pub password: Seq<char>,
    pub is_superuser: bool,
}

impl View for MQTTUser {
    type V = UserView;

    open spec fn view(&self) -> UserView {
        UserView {
            username: self.username@,
            password: self.password@,
            is_superuser: self.is_superuser,
        }
    }
}

impl Record for MQTTUser {
    open spec fn wf(&self) -> bool {
        true
    }
}

impl Clone for MQTTUser {
    fn clone(&self) -> (copy: MQTTUser)
        ensures
            copy@ == self@,
    {
        MQTTUser {
            username: self.username.clone(),
            password: self.password.clone(),
            is_superuser: self.is_superuser,
        }
    }
}

/// The state that the broker keeps for a client across connections.
#[derive(Debug)]
pub struct MQTTSession {
    pub client_id: String,
    pub clean_start: bool,
    pub session_expiry: u64,
    /// The live connection that the session is attached to, if any.
    pub connection_id: Option<u64>,
    /// When the session was last detached from a connection, in seconds.
    pub distinct_time: Option<u64>,
}

/// A session as a mathematical value.
pub struct SessionView {
    pub client_id: Seq<char>,
    pub clean_start: bool,
    pub session_expiry: u64,
    pub connection_id: Option<u64>,
    pub distinct_time: Option<u64>,
}

impl View for MQTTSession {
    type V = SessionView;

    open spec fn view(&self) -> SessionView {
        SessionView {
            client_id: self.client_id@,
            clean_start: self.clean_start,
            session_expiry: self.session_expiry,
            connection_id: self.connection_id,
            distinct_time: self.distinct_time,
        }
    }
}

impl Record for MQTTSession {
    open spec fn wf(&self) -> bool {
        true
    }
}

impl Clone for MQTTSession {
    fn clone(&self) -> (copy: MQTTSession)
        ensures
            copy@ == self@,
    {
        MQTTSession {
            client_id: self.client_id.clone(),
            clean_start: self.clean_start,
            session_expiry: self.session_expiry,
            connection_id: self.connection_id,
            distinct_time: self.distinct_time,
        }
    }
}

impl MQTTSession {
    /// A session that is attached to no connection and was never detached.
    pub fn new(client_id: String, session_expiry: u64, clean_start: bool) -> (session: MQTTSession)
        ensures
            session@ == (SessionView {
                client_id: client_id@,
                clean_start,
                session_expiry,
                connection_id: None,
                distinct_time: None,
            }),
    {
        MQTTSession { client_id, clean_start, session_expiry, connection_id: None, distinct_time: None }
    }

    /// Attaches the session to `connection_id`, or detaches it.
    pub fn update_connnction_id(&mut self, connection_id: Option<u64>)
        ensures
            final(self)@ == (SessionView { connection_id, ..old(self)@ }),
    {
        self.connection_id = connection_id;
    }

    /// Records `now` as the time of the last detachment.
    pub fn update_distinct_time(&mut self, now: u64)
        ensures
            final(self)@ == (SessionView { distinct_time: Some(now), ..old(self)@ }),
    {
        self.distinct_time = Some(now);
    }
}

/// A topic and its retained message.
#[derive(Debug)]
pub struct MQTTTopic {
    pub topic_id: String,
    pub topic_name: String,
    pub retain_message: Option<Vec<u8>>,
}

/// A topic as a mathematical value.
pub struct TopicView {
    pub topic_id: Seq<char>,
    pub topic_name: Seq<char>,
    pub retain_message: Option<Seq<u8>>,
}

/// The view of an optional payload.
pub open spec fn payload_view(payload: Option<Vec<u8>>) -> Option<Seq<u8>> {
    match payload {
        Some(bytes) => Some(bytes@),
        None => None,
    }
}

impl View for MQTTTopic {
    type V = TopicView;

    open spec fn view(&self) -> TopicView {
        TopicView {
            topic_id: self.topic_id@,
            topic_name: self.topic_name@,
            retain_message: payload_view(self.retain_message),
        }
    }
}

impl Record for MQTTTopic {
    open spec fn wf(&self) -> bool {
        true
    }
}

/// A copy of an optional payload.
pub fn clone_payload(payload: &Option<Vec<u8>>) -> (copy: Option<Vec<u8>>)
    ensures
        payload_view(copy) == payload_view(*payload),
{
    match payload {
        Some(bytes) => {
            let copy = bytes.clone();
            assert(copy@ =~= bytes@);
            Some(copy)
        },
        None => None,
    }
}

impl Clone for MQTTTopic {
    fn clone(&self) -> (copy: MQTTTopic)
        ensures
            copy@ == self@,
    {
        MQTTTopic {
            topic_id: self.topic_id.clone(),
            topic_name: self.topic_name.clone(),
            retain_message: clone_payload(&self.retain_message),
        }
    }
}

impl MQTTTopic {
    /// A topic with no retained message.
    pub fn new(topic_id: String, topic_name: String) -> (topic: MQTTTopic)
        ensures
            topic@ == (TopicView { topic_id: topic_id@, topic_name: topic_name@, retain_message: None }),
    {
        MQTTTopic { topic_id, topic_name, retain_message: None }
    }
}

} // verus!
