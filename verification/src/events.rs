//! Changes of cached metadata that the control plane pushes to the broker.
//!
//! Each change carries the sequence number that the control plane gave it. A
//! change is applied only if its number is above that of the last change
//! applied to the same resource, so that a change delivered twice, or after a
//! later one, has no effect.

use crate::acl::{AclView, BlackListView, MQTTAcl, MQTTAclBlackList};
use crate::cache::CacheManager;
use crate::metadata::{
    MQTTClusterDynamicConfig, MQTTSession, MQTTTopic, MQTTUser, SessionView, TopicView, UserView,
};
use crate::state::CacheState;
use vstd::prelude::*;

verus! {

/// The kind of resource that a change speaks of.
#[derive(Clone, Copy, Debug, PartialEq, Eq, Structural)]
pub enum MqttBrokerUpdateCacheResourceType {
    Session,
    User,
    Topic,
    Cluster,
    Acl,
    Blacklist,
}

/// What a change does to its resource.
#[derive(Clone, Copy, Debug, PartialEq, Eq, Structural)]
pub enum MqttBrokerUpdateCacheActionType {
    Add,
    Delete,
}

/// The resource that a change carries, decoded.
#[derive(Debug)]
pub enum CacheResource {
    Session(MQTTSession),
    User(MQTTUser),
    Topic(MQTTTopic),
    Cluster(MQTTClusterDynamicConfig),
    Acl(MQTTAcl),
    Blacklist(MQTTAclBlackList),
}

/// A resource as a mathematical value.
pub enum ResourceView {
    Session(SessionView),
    User(UserView),
    Topic(TopicView),
    Cluster(MQTTClusterDynamicConfig),
    Acl(AclView),
    Blacklist(BlackListView),
}

impl View for CacheResource {
    type V = ResourceView;

    open spec fn view(&self) -> ResourceView {
        match self {
            CacheResource::Session(session) => ResourceView::Session(session@),
            CacheResource::User(user) => ResourceView::User(user@),
            CacheResource::Topic(topic) => ResourceView::Topic(topic@),
            CacheResource::Cluster(config) => ResourceView::Cluster(*config),
            CacheResource::Acl(acl) => ResourceView::Acl(acl@),
            CacheResource::Blacklist(entry) => ResourceView::Blacklist(entry@),
        }
    }
}

impl ResourceView {
    /// The kind of the resource.
    pub open spec fn resource_type(self) -> MqttBrokerUpdateCacheResourceType {
        match self {
            ResourceView::Session(_) => MqttBrokerUpdateCacheResourceType::Session,
            ResourceView::User(_) => MqttBrokerUpdateCacheResourceType::User,
            ResourceView::Topic(_) => MqttBrokerUpdateCacheResourceType::Topic,
            ResourceView::Cluster(_) => MqttBrokerUpdateCacheResourceType::Cluster,
            ResourceView::Acl(_) => MqttBrokerUpdateCacheResourceType::Acl,
            ResourceView::Blacklist(_) => MqttBrokerUpdateCacheResourceType::Blacklist,
        }
    }

    /// The name by which the resource is known within its kind: the client id
    /// of a session, the name of a user or of a topic, the name of the cluster,
    /// and the name that a rule or a blacklist entry speaks of.
    pub open spec fn name(self, cluster_name: Seq<char>) -> Seq<char> {
        match self {
            ResourceView::Session(session) => session.client_id,
            ResourceView::User(user) => user.username,
            ResourceView::Topic(topic) => topic.topic_name,
            ResourceView::Cluster(_) => cluster_name,
            ResourceView::Acl(acl) => acl.resource_name,
            ResourceView::Blacklist(entry) => entry.resource_name,
        }
    }

    /// The key under which the sequence numbers of the resource are kept.
    pub open spec fn key(self, cluster_name: Seq<char>) -> Seq<char> {
        kind_tag(self.resource_type()) + self.name(cluster_name)
    }
}

/// The prefix that marks the keys of a kind of resource.
pub open spec fn kind_tag(kind: MqttBrokerUpdateCacheResourceType) -> Seq<char> {
    match kind {
        MqttBrokerUpdateCacheResourceType::Session => "session:"@,
        MqttBrokerUpdateCacheResourceType::User => "user:"@,
        MqttBrokerUpdateCacheResourceType::Topic => "topic:"@,
        MqttBrokerUpdateCacheResourceType::Cluster => "cluster:"@,
        MqttBrokerUpdateCacheResourceType::Acl => "acl:"@,
        MqttBrokerUpdateCacheResourceType::Blacklist => "blacklist:"@,
    }
}

/// A change of cached metadata.
#[derive(Debug)]
pub struct UpdateCacheRequest {
    pub action_type: MqttBrokerUpdateCacheActionType,
    pub resource: CacheResource,
    /// The number that the control plane gave the change.
    pub sequence: u64,
}

/// A change as a mathematical value.
pub struct UpdateView {
    pub action_type: MqttBrokerUpdateCacheActionType,
    pub resource: ResourceView,
    pub sequence: u64,
}

impl View for UpdateCacheRequest {
    type V = UpdateView;

    open spec fn view(&self) -> UpdateView {
        UpdateView {
            action_type: self.action_type,
            resource: self.resource@,
            sequence: self.sequence,
        }
    }
}

impl UpdateCacheRequest {
    /// The kind of resource that the change speaks of.
    pub fn resource_type(&self) -> (kind: MqttBrokerUpdateCacheResourceType)
        ensures
            kind == self@.resource.resource_type(),
    {
        match &self.resource {
            CacheResource::Session(_) => MqttBrokerUpdateCacheResourceType::Session,
            CacheResource::User(_) => MqttBrokerUpdateCacheResourceType::User,
            CacheResource::Topic(_) => MqttBrokerUpdateCacheResourceType::Topic,
            CacheResource::Cluster(_) => MqttBrokerUpdateCacheResourceType::Cluster,
            CacheResource::Acl(_) => MqttBrokerUpdateCacheResourceType::Acl,
            CacheResource::Blacklist(_) => MqttBrokerUpdateCacheResourceType::Blacklist,
        }
    }

    /// What the change does to its resource.
    pub fn action_type(&self) -> (action: MqttBrokerUpdateCacheActionType)
        ensures
            action == self@.action_type,
    {
        self.action_type
    }
}

impl CacheState {
    /// What a change does to the cached metadata, its sequence number aside:
    /// adding stores the resource in place of the one of its name; deleting a
    /// session removes it with all that hangs on it, deleting a topic removes
    /// it with its retained message, deleting a user, a rule or a blacklist
    /// entry removes it, and deleting the cluster's settings changes nothing.
    pub open spec fn effect(
        self,
        action_type: MqttBrokerUpdateCacheActionType,
        resource: ResourceView,
    ) -> CacheState {
        match action_type {
            MqttBrokerUpdateCacheActionType::Add => match resource {
                ResourceView::Session(session) => self.add_session(session.client_id, session),
                ResourceView::User(user) => self.add_user(user),
                ResourceView::Topic(topic) => self.add_topic(topic.topic_name, topic),
                ResourceView::Cluster(config) => self.set_cluster_info(config),
                ResourceView::Acl(acl) => self.add_acl(acl),
                ResourceView::Blacklist(entry) => self.add_blacklist(entry),
            },
            MqttBrokerUpdateCacheActionType::Delete => match resource {
                ResourceView::Session(session) => self.remove_session(session.client_id),
                ResourceView::User(user) => self.del_user(user.username),
                ResourceView::Topic(topic) => self.remove_topic(topic.topic_name),
                ResourceView::Cluster(_) => self,
                ResourceView::Acl(acl) => self.remove_acl(acl),
                ResourceView::Blacklist(entry) => self.remove_blacklist(entry),
            },
        }
    }

    /// Whether `update` is applied: no change with its sequence number or a
    /// later one was applied to its resource.
    pub open spec fn accepts(self, update: UpdateView) -> bool {
        !self.is_stale(update.resource.key(self.cluster_name), update.sequence)
    }

    /// The state after `update` arrived.
    pub open spec fn update_cache(self, update: UpdateView) -> CacheState {
        if self.accepts(update) {
            self.effect(update.action_type, update.resource).record_sequence(
                update.resource.key(self.cluster_name),
                update.sequence,
            )
        } else {
            self
        }
    }
}

fn tagged(tag: &str, name: &String) -> (key: String)
    ensures
        key@ == tag@ + name@,
{
    let mut key = tag.to_string();
    key.append(name.as_str());
    key
}

/// The key under which the sequence numbers of `resource` are kept.
fn resource_key(cache: &CacheManager, resource: &CacheResource) -> (key: String)
    ensures
        key@ == resource@.key(cache@.cluster_name),
{
    match resource {
        CacheResource::Session(session) => tagged("session:", &session.client_id),
        CacheResource::User(user) => tagged("user:", &user.username),
        CacheResource::Topic(topic) => tagged("topic:", &topic.topic_name),
        CacheResource::Cluster(_) => tagged("cluster:", cache.cluster_name()),
        CacheResource::Acl(acl) => tagged("acl:", &acl.resource_name),
        CacheResource::Blacklist(entry) => tagged("blacklist:", &entry.resource_name),
    }
}

/// Applies a change of cached metadata to `cache`, unless a change with its
/// sequence number or a later one was applied to the same resource before.
/// Tells whether the change was applied.
pub fn update_cache_metadata(cache: &mut CacheManager, request: UpdateCacheRequest) -> (applied: bool)
    requires
        old(cache).wf(),
    ensures
        final(cache).wf(),
        applied == old(cache)@.accepts(request@),
        final(cache)@ == old(cache)@.update_cache(request@),
{
    let key = resource_key(cache, &request.resource);
    if cache.is_stale(&key, request.sequence) {
        return false;
    }
    match request.action_type {
        MqttBrokerUpdateCacheActionType::Add => match request.resource {
            CacheResource::Session(session) => {
                let client_id = session.client_id.clone();
                cache.add_session(client_id, session);
            },
            CacheResource::User(user) => {
                cache.add_user(user);
            },
            CacheResource::Topic(topic) => {
                cache.add_topic(&topic.topic_name, &topic);
            },
            CacheResource::Cluster(config) => {
                cache.set_cluster_info(config);
            },
            CacheResource::Acl(acl) => {
                cache.add_acl(acl);
            },
            CacheResource::Blacklist(entry) => {
                cache.add_blacklist(entry);
            },
        },
        MqttBrokerUpdateCacheActionType::Delete => match request.resource {
            CacheResource::Session(session) => {
                cache.remove_session(&session.client_id);
            },
            CacheResource::User(user) => {
                cache.del_user(&user.username);
            },
            CacheResource::Topic(topic) => {
                cache.remove_topic(&topic.topic_name);
            },
            CacheResource::Cluster(_) => {},
            CacheResource::Acl(acl) => {
                cache.remove_acl(&acl);
            },
            CacheResource::Blacklist(entry) => {
                cache.remove_blacklist(&entry);
            },
        },
    }
    cache.record_sequence(key, request.sequence);
    true
}

} // verus!
