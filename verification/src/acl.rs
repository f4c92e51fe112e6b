//! The access-control cache: allow and deny rules, indexed by the user or the
//! client id they speak of, and the blacklist, indexed by user, client id and
//! address.
//!
//! A request is decided in this order: a blacklist entry denies it; else a
//! matching deny rule denies it; else a matching allow rule allows it; else the
//! cluster's default decides.

use crate::metadata::MQTTAclPermission;
use crate::registry::{NameIndex, Record, Registry};
use vstd::prelude::*;

verus! {

/// What a rule names: a client id or a user.
#[derive(Clone, Copy, Debug, PartialEq, Eq, Structural)]
pub enum MQTTAclResourceType {
    ClientId,
    User,
}

/// The action that a rule speaks of, or that a client asks for.
#[derive(Clone, Copy, Debug, PartialEq, Eq, Structural)]
pub enum MQTTAclAction {
    All,
    Subscribe,
    Publish,
    PubSub,
    Retain,
    Qos,
}

/// An access rule.
#[derive(Debug)]
pub struct MQTTAcl {
    pub resource_type: MQTTAclResourceType,
    pub resource_name: String,
    /// The topic the rule holds for; `*` for every topic.
    pub topic: String,
    /// The source address the rule holds for; `*` for every address.
    pub ip: String,
    pub action: MQTTAclAction,
    pub permission: MQTTAclPermission,
}

/// An access rule as a mathematical value.
pub struct AclView {
    pub resource_type: MQTTAclResourceType,
    pub resource_name: Seq<char>,
    pub topic: Seq<char>,
    pub ip: Seq<char>,
    pub action: MQTTAclAction,
    pub permission: MQTTAclPermission,
}

impl View for MQTTAcl {
    type V = AclView;

    open spec fn view(&self) -> AclView {
        AclView {
            resource_type: self.resource_type,
            resource_name: self.resource_name@,
            topic: self.topic@,
            ip: self.ip@,
            action: self.action,
            permission: self.permission,
        }
    }
}

impl Clone for MQTTAcl {
    fn clone(&self) -> (copy: MQTTAcl)
        ensures
            copy@ == self@,
    {
        MQTTAcl {
            resource_type: self.resource_type,
            resource_name: self.resource_name.clone(),
            topic: self.topic.clone(),
            ip: self.ip.clone(),
            action: self.action,
            permission: self.permission,
        }
    }
}

/// What a blacklist entry names.
#[derive(Clone, Copy, Debug, PartialEq, Eq, Structural)]
pub enum MQTTAclBlackListType {
    ClientId,
    User,
    Ip,
}

/// A blacklist entry: the named client id, user or address is denied everything.
#[derive(Debug)]
pub struct MQTTAclBlackList {
    pub blacklist_type: MQTTAclBlackListType,
    pub resource_name: String,
}

/// A blacklist entry as a mathematical value.
pub struct BlackListView {
    pub blacklist_type: MQTTAclBlackListType,
    pub resource_name: Seq<char>,
}

impl View for MQTTAclBlackList {
    type V = BlackListView;

    open spec fn view(&self) -> BlackListView {
        BlackListView { blacklist_type: self.blacklist_type, resource_name: self.resource_name@ }
    }
}

impl Record for MQTTAclBlackList {
    open spec fn wf(&self) -> bool {
        true
    }
}

impl Clone for MQTTAclBlackList {
    fn clone(&self) -> (copy: MQTTAclBlackList)
        ensures
            copy@ == self@,
    {
        MQTTAclBlackList {
            blacklist_type: self.blacklist_type,
            resource_name: self.resource_name.clone(),
        }
    }
}

/// A request to be authorized.
pub struct AclRequest {
    /// The user the client logged in as.
    pub principal: Seq<char>,
    pub client_id: Seq<char>,
    pub source_ip: Seq<char>,
    pub topic: Seq<char>,
    pub action: MQTTAclAction,
}

/// The field value that stands for every topic, or every address.
pub open spec fn wildcard() -> Seq<char> {
    seq!['*']
}

/// Whether a rule for `rule_action` speaks of a request for `action`.
pub open spec fn action_covers(rule_action: MQTTAclAction, action: MQTTAclAction) -> bool {
    ||| rule_action == MQTTAclAction::All
    ||| rule_action == action
    ||| (rule_action == MQTTAclAction::PubSub && (action == MQTTAclAction::Publish || action
        == MQTTAclAction::Subscribe))
}

/// Whether `rule` speaks of `request`: it names the request's user or client
/// id, and its topic, address and action each cover the request's.
pub open spec fn rule_matches(rule: AclView, request: AclRequest) -> bool {
    &&& match rule.resource_type {
        MQTTAclResourceType::User => rule.resource_name == request.principal,
        MQTTAclResourceType::ClientId => rule.resource_name == request.client_id,
    }
    &&& (rule.topic == wildcard() || rule.topic == request.topic)
    &&& (rule.ip == wildcard() || rule.ip == request.source_ip)
    &&& action_covers(rule.action, request.action)
}

/// The rules and blacklist entries that the cache holds.
#[verifier::ext_equal]
pub struct AclState {
    pub rules: Set<AclView>,
    pub blacklist: Set<BlackListView>,
}

impl AclState {
    pub open spec fn empty() -> AclState {
        AclState { rules: Set::empty(), blacklist: Set::empty() }
    }

    pub open spec fn with_rule(self, rule: AclView) -> AclState {
        AclState { rules: self.rules.insert(rule), ..self }
    }

    pub open spec fn without_rule(self, rule: AclView) -> AclState {
        AclState { rules: self.rules.remove(rule), ..self }
    }

    pub open spec fn with_blacklist(self, entry: BlackListView) -> AclState {
        AclState { blacklist: self.blacklist.insert(entry), ..self }
    }

    pub open spec fn without_blacklist(self, entry: BlackListView) -> AclState {
        AclState { blacklist: self.blacklist.remove(entry), ..self }
    }

    /// Whether the blacklist names the user, the client id or the address of `request`.
    pub open spec fn blacklisted(self, request: AclRequest) -> bool {
        ||| self.blacklist.contains(
            BlackListView {
                blacklist_type: MQTTAclBlackListType::User,
                resource_name: request.principal,
            },
        )
        ||| self.blacklist.contains(
            BlackListView {
                blacklist_type: MQTTAclBlackListType::ClientId,
                resource_name: request.client_id,
            },
        )
        ||| self.blacklist.contains(
            BlackListView {
                blacklist_type: MQTTAclBlackListType::Ip,
                resource_name: request.source_ip,
            },
        )
    }

    /// Whether some rule with `permission` speaks of `request`.
    pub open spec fn has_match(self, permission: MQTTAclPermission, request: AclRequest) -> bool {
        exists|rule: AclView| #[trigger]
            self.rules.contains(rule) && rule.permission == permission && rule_matches(rule, request)
    }

    /// The decision on `request`, where `default` decides what no rule speaks of.
    pub open spec fn decide(self, default: MQTTAclPermission, request: AclRequest) -> MQTTAclPermission {
        if self.blacklisted(request) {
            MQTTAclPermission::Deny
        } else if self.has_match(MQTTAclPermission::Deny, request) {
            MQTTAclPermission::Deny
        } else if self.has_match(MQTTAclPermission::Allow, request) {
            MQTTAclPermission::Allow
        } else {
            default
        }
    }
}

/// The rules stored for one user or one client id.
#[derive(Debug)]
pub struct AclBucket {
    rules: Vec<MQTTAcl>,
}

impl View for AclBucket {
    type V = Set<AclView>;

    closed spec fn view(&self) -> Set<AclView> {
        Set::new(|rule: AclView| exists|i: int| 0 <= i < self.rules@.len() && (#[trigger] self.rules@[i])@ == rule)
    }
}

impl Record for AclBucket {
    open spec fn wf(&self) -> bool {
        true
    }
}

fn same_text(a: &String, b: &String) -> (same: bool)
    ensures
        same == (a@ == b@),
{
    *a == *b
}

fn same_rule(a: &MQTTAcl, b: &MQTTAcl) -> (same: bool)
    ensures
        same == (a@ == b@),
{
    a.resource_type == b.resource_type && same_text(&a.resource_name, &b.resource_name)
        && same_text(&a.topic, &b.topic) && same_text(&a.ip, &b.ip) && a.action == b.action
        && a.permission == b.permission
}

fn is_wildcard(text: &String) -> (wild: bool)
    ensures
        wild == (text@ == wildcard()),
{
    let wild = text.as_str().unicode_len() == 1 && text.as_str().get_char(0) == '*';
    assert(wild == (text@ =~= wildcard()));
    wild
}

fn covers(rule_action: MQTTAclAction, action: MQTTAclAction) -> (covered: bool)
    ensures
        covered == action_covers(rule_action, action),
{
    rule_action == MQTTAclAction::All || rule_action == action || (rule_action
        == MQTTAclAction::PubSub && (action == MQTTAclAction::Publish || action
        == MQTTAclAction::Subscribe))
}

/// The request that the arguments of [`AclMetadata::authorize`] make up.
pub open spec fn request_of(
    principal: Seq<char>,
    client_id: Seq<char>,
    source_ip: Seq<char>,
    topic: Seq<char>,
    action: MQTTAclAction,
) -> AclRequest {
    AclRequest { principal, client_id, source_ip, topic, action }
}

fn matches(
    rule: &MQTTAcl,
    principal: &String,
    client_id: &String,
    source_ip: &String,
    topic: &String,
    action: MQTTAclAction,
) -> (matched: bool)
    ensures
        matched == rule_matches(rule@, request_of(principal@, client_id@, source_ip@, topic@, action)),
{
    let named = match rule.resource_type {
        MQTTAclResourceType::User => same_text(&rule.resource_name, principal),
        MQTTAclResourceType::ClientId => same_text(&rule.resource_name, client_id),
    };
    named && (is_wildcard(&rule.topic) || same_text(&rule.topic, topic)) && (is_wildcard(&rule.ip)
        || same_text(&rule.ip, source_ip)) && covers(rule.action, action)
}

impl AclBucket {
    fn new() -> (bucket: AclBucket)
        ensures
            bucket@ == Set::<AclView>::empty(),
    {
        let bucket = AclBucket { rules: Vec::new() };
        assert(bucket@ =~= Set::<AclView>::empty());
        bucket
    }

    fn contains(&self, rule: &MQTTAcl) -> (held: bool)
        ensures
            held == self@.contains(rule@),
    {
        let mut i: usize = 0;
        while i < self.rules.len()
            invariant
                i <= self.rules@.len(),
                forall|j: int| 0 <= j < i ==> (#[trigger] self.rules@[j])@ != rule@,
            decreases self.rules@.len() - i,
        {
            if same_rule(&self.rules[i], rule) {
                return true;
            }
            i += 1;
        }
        false
    }

    /// Adds `rule`, unless the bucket holds an equal one.
    fn add(&mut self, rule: MQTTAcl)
        ensures
            final(self)@ == old(self)@.insert(rule@),
    {
        if !self.contains(&rule) {
            self.rules.push(rule);
            assert forall|r: AclView| self@.contains(r) <==> old(self)@.insert(rule@).contains(r) by {
                if old(self)@.contains(r) {
                    let i = choose|i: int| 0 <= i < old(self).rules@.len() && (#[trigger] old(
                        self,
                    ).rules@[i])@ == r;
                    assert(self.rules@[i]@ == r);
                }
                if r == rule@ {
                    assert(self.rules@[self.rules@.len() - 1]@ == r);
                }
                if self@.contains(r) {
                    let i = choose|i: int| 0 <= i < self.rules@.len() && (#[trigger] self.rules@[i])@
                        == r;
                    if i < old(self).rules@.len() {
                        assert(old(self).rules@[i]@ == r);
                    }
                }
            }
        }
        assert(self@ =~= old(self)@.insert(rule@));
    }

    /// Removes every rule equal to `rule`.
    fn discard(&mut self, rule: &MQTTAcl)
        ensures
            final(self)@ == old(self)@.remove(rule@),
    {
        let mut i: usize = 0;
        while i < self.rules.len()
            invariant
                i <= self.rules@.len(),
                forall|j: int| 0 <= j < i ==> (#[trigger] self.rules@[j])@ != rule@,
                forall|r: AclView| self@.contains(r) ==> old(self)@.contains(r),
                forall|r: AclView| old(self)@.contains(r) && r != rule@ ==> self@.contains(r),
            decreases self.rules@.len() - i,
        {
            if same_rule(&self.rules[i], rule) {
                let ghost before = self.rules@;
                let _ = self.rules.swap_remove(i);
                proof {
                    let after = self.rules@;
                    assert forall|r: AclView| self@.contains(r) implies old(self)@.contains(r) by {
                        let j = choose|j: int| 0 <= j < after.len() && (#[trigger] after[j])@ == r;
                        if j == i {
                            assert(before[before.len() - 1]@ == r);
                        } else {
                            assert(before[j]@ == r);
                        }
                    }
                    assert forall|r: AclView| old(self)@.contains(r) && r != rule@ implies self@.contains(
                        r,
                    ) by {
                        let j = choose|j: int| 0 <= j < before.len() && (#[trigger] before[j])@ == r;
                        if j == before.len() - 1 {
                            assert(after[i as int]@ == r);
                        } else {
                            assert(after[j]@ == r);
                        }
                    }
                }
            } else {
                i += 1;
            }
        }
        assert(self@ =~= old(self)@.remove(rule@)) by {
            assert forall|r: AclView| self@.contains(r) implies r != rule@ by {
                let j = choose|j: int| 0 <= j < self.rules@.len() && (#[trigger] self.rules@[j])@ == r;
            }
        }
    }

    /// Whether the bucket holds a rule of `scope` with `permission` that speaks
    /// of the request.
    fn has_match(
        &self,
        scope: MQTTAclResourceType,
        permission: MQTTAclPermission,
        principal: &String,
        client_id: &String,
        source_ip: &String,
        topic: &String,
        action: MQTTAclAction,
    ) -> (found: bool)
        ensures
            found == (exists|rule: AclView| #[trigger]
                self@.contains(rule) && rule.resource_type == scope && rule.permission == permission
                    && rule_matches(
                    rule,
                    request_of(principal@, client_id@, source_ip@, topic@, action),
                )),
    {
        let ghost request = request_of(principal@, client_id@, source_ip@, topic@, action);
        let mut i: usize = 0;
        while i < self.rules.len()
            invariant
                i <= self.rules@.len(),
                request == request_of(principal@, client_id@, source_ip@, topic@, action),
                forall|j: int|
                    0 <= j < i ==> !((#[trigger] self.rules@[j])@.resource_type == scope
                        && self.rules@[j]@.permission == permission && rule_matches(
                        self.rules@[j]@,
                        request,
                    )),
            decreases self.rules@.len() - i,
        {
            let rule = &self.rules[i];
            if rule.resource_type == scope && rule.permission == permission && matches(
                rule,
                principal,
                client_id,
                source_ip,
                topic,
                action,
            ) {
                assert(self@.contains(rule@));
                return true;
            }
            i += 1;
        }
        assert forall|rule: AclView| #[trigger] self@.contains(rule) implies !(rule.resource_type
            == scope && rule.permission == permission && rule_matches(rule, request)) by {
            let j = choose|j: int| 0 <= j < self.rules@.len() && (#[trigger] self.rules@[j])@ == rule;
        }
        false
    }
}

/// The access-control cache.
pub struct AclMetadata {
    /// The rules that name a user, by user name.
    acl_user: Registry<NameIndex, AclBucket>,
    /// The rules that name a client id, by client id.
    acl_client_id: Registry<NameIndex, AclBucket>,
    blacklist_user: Registry<NameIndex, MQTTAclBlackList>,
    blacklist_client_id: Registry<NameIndex, MQTTAclBlackList>,
    blacklist_ip: Registry<NameIndex, MQTTAclBlackList>,
}

impl View for AclMetadata {
    type V = AclState;

    closed spec fn view(&self) -> AclState {
        AclState {
            rules: Set::new(
                |rule: AclView|
                    match rule.resource_type {
                        MQTTAclResourceType::User => self.acl_user@.dom().contains(rule.resource_name)
                            && self.acl_user@[rule.resource_name].contains(rule),
                        MQTTAclResourceType::ClientId => self.acl_client_id@.dom().contains(
                            rule.resource_name,
                        ) && self.acl_client_id@[rule.resource_name].contains(rule),
                    },
            ),
            blacklist: Set::new(
                |entry: BlackListView|
                    match entry.blacklist_type {
                        MQTTAclBlackListType::User => self.blacklist_user@.dom().contains(
                            entry.resource_name,
                        ),
                        MQTTAclBlackListType::ClientId => self.blacklist_client_id@.dom().contains(
                            entry.resource_name,
                        ),
                        MQTTAclBlackListType::Ip => self.blacklist_ip@.dom().contains(
                            entry.resource_name,
                        ),
                    },
            ),
        }
    }
}

impl AclMetadata {
    /// The tables of the cache are well-formed.
    pub closed spec fn wf(&self) -> bool {
        &&& self.acl_user.wf()
        &&& self.acl_client_id.wf()
        &&& self.blacklist_user.wf()
        &&& self.blacklist_client_id.wf()
        &&& self.blacklist_ip.wf()
    }

    /// A cache without rules and without blacklist entries.
    pub fn new() -> (cache: AclMetadata)
        ensures
            cache.wf(),
            cache@ == AclState::empty(),
    {
        let cache = AclMetadata {
            acl_user: Registry::new(),
            acl_client_id: Registry::new(),
            blacklist_user: Registry::new(),
            blacklist_client_id: Registry::new(),
            blacklist_ip: Registry::new(),
        };
        assert(cache@.rules =~= Set::<AclView>::empty());
        assert(cache@.blacklist =~= Set::<BlackListView>::empty());
        cache
    }

    /// Takes `acl` into the cache; a rule that the cache holds already changes nothing.
    pub fn parse_mqtt_acl(&mut self, acl: MQTTAcl)
        requires
            old(self).wf(),
        ensures
            final(self).wf(),
            final(self)@ == old(self)@.with_rule(acl@),
    {
        let name = acl.resource_name.clone();
        match acl.resource_type {
            MQTTAclResourceType::User => {
                let mut bucket = match self.acl_user.remove(&name) {
                    Some(bucket) => bucket,
                    None => AclBucket::new(),
                };
                bucket.add(acl);
                self.acl_user.insert(name, bucket);
            },
            MQTTAclResourceType::ClientId => {
                let mut bucket = match self.acl_client_id.remove(&name) {
                    Some(bucket) => bucket,
                    None => AclBucket::new(),
                };
                bucket.add(acl);
                self.acl_client_id.insert(name, bucket);
            },
        }
        assert(self@.rules =~= old(self)@.rules.insert(acl@));
        assert(self@.blacklist =~= old(self)@.blacklist);
    }

    /// Takes `acl` out of the cache; a rule that the cache does not hold changes nothing.
    pub fn remove_mqtt_acl(&mut self, acl: &MQTTAcl)
        requires
            old(self).wf(),
        ensures
            final(self).wf(),
            final(self)@ == old(self)@.without_rule(acl@),
    {
        let name = acl.resource_name.clone();
        match acl.resource_type {
            MQTTAclResourceType::User => {
                if let Some(mut bucket) = self.acl_user.remove(&name) {
                    bucket.discard(acl);
                    self.acl_user.insert(name, bucket);
                }
            },
            MQTTAclResourceType::ClientId => {
                if let Some(mut bucket) = self.acl_client_id.remove(&name) {
                    bucket.discard(acl);
                    self.acl_client_id.insert(name, bucket);
                }
            },
        }
        assert(self@.rules =~= old(self)@.rules.remove(acl@));
        assert(self@.blacklist =~= old(self)@.blacklist);
    }

    /// Takes `blacklist` into the cache.
    pub fn parse_mqtt_blacklist(&mut self, blacklist: MQTTAclBlackList)
        requires
            old(self).wf(),
        ensures
            final(self).wf(),
            final(self)@ == old(self)@.with_blacklist(blacklist@),
    {
        let name = blacklist.resource_name.clone();
        match blacklist.blacklist_type {
            MQTTAclBlackListType::User => {
                self.blacklist_user.insert(name, blacklist);
            },
            MQTTAclBlackListType::ClientId => {
                self.blacklist_client_id.insert(name, blacklist);
            },
            MQTTAclBlackListType::Ip => {
                self.blacklist_ip.insert(name, blacklist);
            },
        }
        assert(self@.rules =~= old(self)@.rules);
        assert(self@.blacklist =~= old(self)@.blacklist.insert(blacklist@));
    }

    /// Takes the blacklist entry equal to `blacklist` out of the cache.
    pub fn remove_mqtt_blacklist(&mut self, blacklist: &MQTTAclBlackList)
        requires
            old(self).wf(),
        ensures
            final(self).wf(),
            final(self)@ == old(self)@.without_blacklist(blacklist@),
    {
        match blacklist.blacklist_type {
            MQTTAclBlackListType::User => {
                let _ = self.blacklist_user.remove(&blacklist.resource_name);
            },
            MQTTAclBlackListType::ClientId => {
                let _ = self.blacklist_client_id.remove(&blacklist.resource_name);
            },
            MQTTAclBlackListType::Ip => {
                let _ = self.blacklist_ip.remove(&blacklist.resource_name);
            },
        }
        assert(self@.rules =~= old(self)@.rules);
        assert(self@.blacklist =~= old(self)@.blacklist.remove(blacklist@));
    }

    fn has_match(
        &self,
        permission: MQTTAclPermission,
        principal: &String,
        client_id: &String,
        source_ip: &String,
        topic: &String,
        action: MQTTAclAction,
    ) -> (found: bool)
        requires
            self.wf(),
        ensures
            found == self@.has_match(
                permission,
                request_of(principal@, client_id@, source_ip@, topic@, action),
            ),
    {
        let ghost request = request_of(principal@, client_id@, source_ip@, topic@, action);
        let by_user = match self.acl_user.get(principal) {
            Some(bucket) => bucket.has_match(
                MQTTAclResourceType::User,
                permission,
                principal,
                client_id,
                source_ip,
                topic,
                action,
            ),
            None => false,
        };
        let by_client = match self.acl_client_id.get(client_id) {
            Some(bucket) => bucket.has_match(
                MQTTAclResourceType::ClientId,
                permission,
                principal,
                client_id,
                source_ip,
                topic,
                action,
            ),
            None => false,
        };
        proof {
            if by_user {
                let rule = choose|rule: AclView| #[trigger]
                    self.acl_user@[principal@].contains(rule) && rule.resource_type
                        == MQTTAclResourceType::User && rule.permission == permission && rule_matches(
                        rule,
                        request,
                    );
                assert(self@.rules.contains(rule));
            }
            if by_client {
                let rule = choose|rule: AclView| #[trigger]
                    self.acl_client_id@[client_id@].contains(rule) && rule.resource_type
                        == MQTTAclResourceType::ClientId && rule.permission == permission
                        && rule_matches(rule, request);
                assert(self@.rules.contains(rule));
            }
            if self@.has_match(permission, request) {
                let rule = choose|rule: AclView| #[trigger]
                    self@.rules.contains(rule) && rule.permission == permission && rule_matches(
                        rule,
                        request,
                    );
                match rule.resource_type {
                    MQTTAclResourceType::User => {
                        assert(self.acl_user@[principal@].contains(rule));
                    },
                    MQTTAclResourceType::ClientId => {
                        assert(self.acl_client_id@[client_id@].contains(rule));
                    },
                }
            }
        }
        by_user || by_client
    }

    /// Decides whether the user `principal`, connected as `client_id` from
    /// `source_ip`, may do `action` on `topic`; `default` decides where neither
    /// the blacklist nor any rule speaks of the request.
    pub fn authorize(
        &self,
        default: MQTTAclPermission,
        principal: &String,
        client_id: &String,
        source_ip: &String,
        topic: &String,
        action: MQTTAclAction,
    ) -> (decision: MQTTAclPermission)
        requires
            self.wf(),
        ensures
            decision == self@.decide(
                default,
                request_of(principal@, client_id@, source_ip@, topic@, action),
            ),
    {
        if self.blacklist_user.contains_key(principal) || self.blacklist_client_id.contains_key(
            client_id,
        ) || self.blacklist_ip.contains_key(source_ip) {
            return MQTTAclPermission::Deny;
        }
        if self.has_match(MQTTAclPermission::Deny, principal, client_id, source_ip, topic, action) {
            return MQTTAclPermission::Deny;
        }
        if self.has_match(MQTTAclPermission::Allow, principal, client_id, source_ip, topic, action) {
            return MQTTAclPermission::Allow;
        }
        default
    }
}

} // verus!
