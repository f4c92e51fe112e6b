use mqtt_broker::cache::{
    CacheManager, MetadataCacheAction, MetadataCacheType, MetadataChangeData, PkidGrant,
    PKID_RETRY_DELAY_MS,
};
use mqtt_broker::connection::{build_connection_at, Connection};
use mqtt_broker::disconnect::{disconnect_connection, disconnect_connection_at, disconnect_outcome};
use mqtt_broker::error::CoreError;
use mqtt_broker::keep_alive::ConnectionLiveTime;
use mqtt_broker::metadata::{MQTTClusterDynamicConfig, MQTTSession, MQTTTopic, MQTTUser};
use mqtt_broker::protocol::{
    Connect, Filter, MQTTProtocol, PublishProperties, QoS, RetainForwardRule, Subscribe,
    SubscribeProperties,
};
use mqtt_broker::qos::{QosAckPackageType, QosAckPacketInfo};
use mqtt_broker::text::{client_key_prefix, composite_key, has_prefix};

fn s(text: &str) -> String {
    text.to_string()
}

fn cache() -> CacheManager {
    CacheManager::new(s("test_cluster"))
}

fn session(client_id: &str) -> MQTTSession {
    MQTTSession::new(s(client_id), 60, false)
}

fn connection(connect_id: u64, client_id: &str, alias_max: u16) -> Connection {
    Connection::new(connect_id, &s(client_id), 10, 1000, alias_max, 0, 30, s("127.0.0.1:1"))
}

fn filter(path: &str) -> Filter {
    Filter {
        path: s(path),
        qos: QoS::AtLeastOnce,
        nolocal: false,
        preserve_retain: false,
        retain_forward_rule: RetainForwardRule::OnEverySubscribe,
    }
}

fn alias(value: u16) -> Option<PublishProperties> {
    let mut p = PublishProperties::default();
    p.topic_alias = Some(value);
    Some(p)
}

#[test]
fn new_cache_is_empty() {
    let c = cache();
    assert_eq!(c.cluster_name(), "test_cluster");
    assert!(c.get_session_info(&s("a")).is_none());
    assert!(c.get_user(&s("a")).is_none());
    assert!(c.get_connection(1).is_none());
    assert!(!c.topic_exists(&s("t")));
    assert!(c.get_connect_id(&s("a")).is_none());
    assert!(c.is_new_sub(&s("a"), &s("/x")));
    assert!(c.expired_clients(u64::MAX).is_empty());
    assert_eq!(c.get_cluster_info(), MQTTClusterDynamicConfig::new());
}

#[test]
fn cluster_info_is_replaced_wholesale() {
    let mut c = cache();
    let mut config = MQTTClusterDynamicConfig::new();
    config.protocol.receive_max = 7;
    c.set_cluster_info(config);
    assert_eq!(c.get_cluster_info().protocol.receive_max, 7);
    let mut other = MQTTClusterDynamicConfig::new();
    other.protocol.max_qos = 1;
    c.set_cluster_info(other);
    assert_eq!(c.get_cluster_info(), other);
    assert_eq!(c.get_cluster_info().protocol.receive_max, 65535);
}

#[test]
fn default_cluster_settings() {
    let config = MQTTClusterDynamicConfig::new();
    assert_eq!(config.protocol.session_expiry_interval, 1800);
    assert_eq!(config.protocol.topic_alias_max, 65535);
    assert_eq!(config.protocol.max_qos, 2);
    assert_eq!(config.protocol.max_packet_size, 10 * 1024 * 1024);
    assert_eq!(config.protocol.max_server_keep_alive, 3600);
    assert_eq!(config.protocol.default_server_keep_alive, 60);
    assert_eq!(config.protocol.receive_max, 65535);
}

#[test]
fn users_are_stored_by_name() {
    let mut c = cache();
    c.add_user(MQTTUser { username: s("u"), password: s("first"), is_superuser: false });
    c.add_user(MQTTUser { username: s("v"), password: s("q"), is_superuser: true });
    c.add_user(MQTTUser { username: s("u"), password: s("second"), is_superuser: false });
    let u = c.get_user(&s("u")).unwrap();
    assert_eq!(u.password, "second");
    assert!(!u.is_superuser);
    assert!(c.get_user(&s("v")).unwrap().is_superuser);
    c.del_user(&s("u"));
    assert!(c.get_user(&s("u")).is_none());
    assert!(c.get_user(&s("v")).is_some());
    c.del_user(&s("u"));
    assert!(c.get_user(&s("u")).is_none());
}

#[test]
fn add_then_delete_user_restores_the_user_table() {
    let mut c = cache();
    c.add_user(MQTTUser { username: s("keep"), password: s("k"), is_superuser: false });
    c.add_user(MQTTUser { username: s("u"), password: s("p"), is_superuser: false });
    c.del_user(&s("u"));
    assert!(c.get_user(&s("u")).is_none());
    assert_eq!(c.get_user(&s("keep")).unwrap().password, "k");
}

#[test]
fn system_user_is_a_superuser() {
    let mut c = cache();
    c.init_system_user(s("admin"), s("secret"));
    let u = c.get_user(&s("admin")).unwrap();
    assert_eq!(u.username, "admin");
    assert_eq!(u.password, "secret");
    assert!(u.is_superuser);
}

#[test]
fn session_binding_is_exclusive() {
    let mut c = cache();
    assert_eq!(c.update_session_connect_id(&s("a"), Some(1)), Err(CoreError::UnknownClient));
    assert_eq!(c.update_session_connect_id(&s("a"), None), Err(CoreError::UnknownClient));
    c.add_session(s("a"), session("a"));
    assert_eq!(c.get_connect_id(&s("a")), None);
    assert_eq!(c.update_session_connect_id(&s("a"), Some(1)), Ok(()));
    assert_eq!(c.get_connect_id(&s("a")), Some(1));
    assert_eq!(c.update_session_connect_id(&s("a"), Some(1)), Ok(()));
    assert_eq!(c.get_connect_id(&s("a")), Some(1));
    assert_eq!(c.update_session_connect_id(&s("a"), Some(2)), Err(CoreError::AlreadyBound));
    assert_eq!(c.get_connect_id(&s("a")), Some(1));
    assert_eq!(c.update_session_connect_id_at(&s("a"), None, 777), Ok(()));
    assert_eq!(c.get_connect_id(&s("a")), None);
    let stored = c.get_session_info(&s("a")).unwrap();
    assert_eq!(stored.distinct_time, Some(777));
    assert_eq!(stored.connection_id, None);
    assert_eq!(stored.client_id, "a");
    assert_eq!(stored.session_expiry, 60);
    assert_eq!(c.update_session_connect_id(&s("a"), Some(2)), Ok(()));
    assert_eq!(c.get_connect_id(&s("a")), Some(2));
    assert_eq!(c.get_session_info(&s("a")).unwrap().distinct_time, Some(777));
}

#[test]
fn unbind_stamps_the_current_time() {
    let mut c = cache();
    c.add_session(s("a"), session("a"));
    assert_eq!(c.update_session_connect_id(&s("a"), None), Ok(()));
    let stamped = c.get_session_info(&s("a")).unwrap().distinct_time.unwrap();
    assert!(stamped > 1_600_000_000);
}

#[test]
fn register_then_get_yields_the_built_connection() {
    let mut c = cache();
    c.add_session(s("cid"), session("cid"));
    let cluster = MQTTClusterDynamicConfig::new();
    let connect = Connect { keep_alive: 20, client_id: s("cid"), clean_session: false };
    let conn = build_connection_at(5, &s("cid"), &cluster, &connect, &None, s("1.2.3.4:5"), 99);
    assert_eq!(c.add_connection(5, conn), Ok(()));
    let got = c.get_connection(5).unwrap();
    assert_eq!(got.connect_id, 5);
    assert_eq!(got.client_id, "cid");
    assert_eq!(got.keep_alive, 20);
    assert_eq!(got.source_ip_addr, "1.2.3.4:5");
    assert_eq!(got.create_time, 99);
    assert_eq!(got.client_max_receive_maximum, 65535);
    assert_eq!(got.max_packet_size, 10 * 1024 * 1024);
    assert_eq!(got.topic_alias_max, 65535);
    assert!(!got.is_login);
    assert_eq!(got.login_user, "");
    assert_eq!(got.topic_alias_len(), 0);
    assert_eq!(c.get_connect_id(&s("cid")), Some(5));
}

#[test]
fn add_connection_needs_a_free_session() {
    let mut c = cache();
    assert_eq!(c.add_connection(1, connection(1, "a", 10)), Err(CoreError::UnknownClient));
    assert!(c.get_connection(1).is_none());
    c.add_session(s("a"), session("a"));
    assert_eq!(c.add_connection(1, connection(1, "a", 10)), Ok(()));
    assert_eq!(c.add_connection(2, connection(2, "a", 10)), Err(CoreError::AlreadyBound));
    assert!(c.get_connection(2).is_none());
    assert_eq!(c.get_connect_id(&s("a")), Some(1));
    c.remove_connection(1);
    assert!(c.get_connection(1).is_none());
    c.remove_connection(1);
    assert_eq!(c.get_connect_id(&s("a")), Some(1));
}

#[test]
fn login_is_recorded_on_the_connection() {
    let mut c = cache();
    c.add_session(s("a"), session("a"));
    assert_eq!(c.add_connection(1, connection(1, "a", 10)), Ok(()));
    assert!(!c.is_login(1));
    assert!(!c.is_login(2));
    assert_eq!(c.check_login(1), Err(CoreError::NotLoggedIn));
    assert_eq!(c.check_login(2), Err(CoreError::UnknownConnection));
    assert_eq!(c.login_success(2, s("u")), Err(CoreError::UnknownConnection));
    assert_eq!(c.login_success(1, s("u")), Ok(()));
    assert!(c.is_login(1));
    assert_eq!(c.check_login(1), Ok(()));
    let got = c.get_connection(1).unwrap();
    assert_eq!(got.login_user, "u");
    assert_eq!(got.client_id, "a");
}

#[test]
fn topic_alias_through_the_cache() {
    let mut c = cache();
    c.add_session(s("a"), session("a"));
    assert_eq!(c.add_connection(1, connection(1, "a", 2)), Ok(()));
    assert_eq!(c.add_topic_alias(1, &s("t"), &None), Ok(()));
    assert_eq!(c.add_topic_alias(9, &s("t"), &None), Ok(()));
    assert_eq!(c.add_topic_alias(9, &s("t"), &Some(PublishProperties::default())), Ok(()));
    assert_eq!(c.add_topic_alias(9, &s("t"), &alias(1)), Err(CoreError::UnknownConnection));
    assert_eq!(c.add_topic_alias(1, &s("t"), &alias(0)), Err(CoreError::AliasOutOfRange));
    assert_eq!(c.add_topic_alias(1, &s("t"), &alias(3)), Err(CoreError::AliasOutOfRange));
    assert!(!c.topic_alias_exists(1, 3));
    assert_eq!(c.add_topic_alias(1, &s("t1"), &alias(1)), Ok(()));
    assert_eq!(c.add_topic_alias(1, &s("t2"), &alias(2)), Ok(()));
    assert_eq!(c.add_topic_alias(1, &s("t1b"), &alias(1)), Ok(()));
    assert_eq!(c.get_topic_alias(1, 1), Some(s("t1b")));
    assert_eq!(c.get_topic_alias(1, 2), Some(s("t2")));
    assert_eq!(c.get_topic_alias(1, 3), None);
    assert_eq!(c.get_topic_alias(2, 1), None);
    assert!(c.topic_alias_exists(1, 2));
    assert!(!c.topic_alias_exists(2, 2));
    assert_eq!(c.get_connection(1).unwrap().topic_alias_len(), 2);
}

#[test]
fn retained_message_update() {
    let mut c = cache();
    let topic = MQTTTopic::new(s("id-1"), s("T"));
    c.add_topic(&s("T"), &topic);
    assert!(c.topic_exists(&s("T")));
    assert_eq!(c.topic_name_by_id(s("id-1")), Some(s("T")));
    assert_eq!(c.topic_name_by_id(s("id-2")), None);
    assert_eq!(c.get_topic_by_name(&s("T")).unwrap().retain_message, None);
    c.update_topic_retain_message(&s("T"), Some(vec![1, 2, 3]));
    let got = c.get_topic_by_name(&s("T")).unwrap();
    assert_eq!(got.retain_message, Some(vec![1, 2, 3]));
    assert_eq!(got.topic_id, "id-1");
    assert_eq!(got.topic_name, "T");
    c.update_topic_retain_message(&s("T"), Some(vec![9]));
    assert_eq!(c.get_topic_by_name(&s("T")).unwrap().retain_message, Some(vec![9]));
    c.update_topic_retain_message(&s("T"), None);
    assert_eq!(c.get_topic_by_name(&s("T")).unwrap().retain_message, None);
    c.update_topic_retain_message(&s("unknown"), Some(vec![1]));
    assert!(!c.topic_exists(&s("unknown")));
    assert!(c.get_topic_by_name(&s("unknown")).is_none());
}

#[test]
fn topic_removal_clears_both_indices() {
    let mut c = cache();
    c.add_topic(&s("T"), &MQTTTopic::new(s("id-1"), s("T")));
    c.add_topic(&s("U"), &MQTTTopic::new(s("id-2"), s("U")));
    c.remove_topic(&s("T"));
    assert!(!c.topic_exists(&s("T")));
    assert_eq!(c.topic_name_by_id(s("id-1")), None);
    assert_eq!(c.topic_name_by_id(s("id-2")), Some(s("U")));
    c.remove_topic(&s("T"));
    assert!(c.topic_exists(&s("U")));
}

#[test]
fn subscriptions_are_kept_by_client_and_path() {
    let mut c = cache();
    let sub = Subscribe { packet_identifier: 1, filters: vec![filter("/a"), filter("/b")] };
    assert_eq!(
        c.add_client_subscribe(s("c"), MQTTProtocol::MQTT5, sub, None),
        Err(CoreError::UnknownClient)
    );
    assert!(c.is_new_sub(&s("c"), &s("/a")));
    c.add_session(s("c"), session("c"));
    let sub = Subscribe { packet_identifier: 1, filters: vec![filter("/a"), filter("/b")] };
    let props = SubscribeProperties {
        subscription_identifier: Some(3),
        user_properties: vec![(s("k"), s("v"))],
    };
    assert_eq!(c.add_client_subscribe(s("c"), MQTTProtocol::MQTT5, sub, Some(props)), Ok(()));
    assert!(!c.is_new_sub(&s("c"), &s("/a")));
    assert!(!c.is_new_sub(&s("c"), &s("/b")));
    assert!(c.is_new_sub(&s("c"), &s("/c")));
    assert!(c.is_new_sub(&s("d"), &s("/a")));
    let data = c.get_subscribe(&s("c"), &s("/b")).unwrap();
    assert_eq!(data.protocol, MQTTProtocol::MQTT5);
    assert_eq!(data.filter.path, "/b");
    assert_eq!(data.filter.qos, QoS::AtLeastOnce);
    let kept = data.subscribe_properties.unwrap();
    assert_eq!(kept.subscription_identifier, Some(3));
    assert_eq!(kept.user_properties, vec![(s("k"), s("v"))]);

    let mut again = filter("/a");
    again.qos = QoS::ExactlyOnce;
    let sub = Subscribe { packet_identifier: 2, filters: vec![again] };
    assert_eq!(c.add_client_subscribe(s("c"), MQTTProtocol::MQTT4, sub, None), Ok(()));
    let data = c.get_subscribe(&s("c"), &s("/a")).unwrap();
    assert_eq!(data.protocol, MQTTProtocol::MQTT4);
    assert_eq!(data.filter.qos, QoS::ExactlyOnce);
    assert!(data.subscribe_properties.is_none());
    assert!(!c.is_new_sub(&s("c"), &s("/b")));

    c.remove_filter_by_pkid(&s("c"), &vec![s("/a"), s("/zzz")]);
    assert!(c.is_new_sub(&s("c"), &s("/a")));
    assert!(!c.is_new_sub(&s("c"), &s("/b")));
    c.remove_filter_by_pkid(&s("nobody"), &vec![s("/b")]);
    assert!(!c.is_new_sub(&s("c"), &s("/b")));
    c.remove_filter_by_client_id(s("c"));
    assert!(c.is_new_sub(&s("c"), &s("/b")));
    assert!(c.get_subscribe(&s("c"), &s("/b")).is_none());
}

#[test]
fn subscribe_without_filters_changes_nothing() {
    let mut c = cache();
    c.add_session(s("c"), session("c"));
    let sub = Subscribe { packet_identifier: 1, filters: Vec::new() };
    assert_eq!(c.add_client_subscribe(s("c"), MQTTProtocol::MQTT5, sub, None), Ok(()));
    assert!(c.is_new_sub(&s("c"), &s("/a")));
}

#[test]
fn packet_identifiers_are_granted_smallest_first() {
    let mut c = cache();
    assert_eq!(c.get_pkid(&s("c")), Some(1));
    assert_eq!(c.get_pkid(&s("c")), Some(2));
    assert_eq!(c.get_pkid(&s("c")), Some(3));
    assert_eq!(c.get_pkid(&s("d")), Some(1));
    assert!(c.pkid_in_flight(&s("c"), 2));
    assert!(!c.pkid_in_flight(&s("c"), 4));
    assert!(!c.pkid_in_flight(&s("e"), 1));
    c.remove_pkid_info(&s("c"), 2);
    assert!(!c.pkid_in_flight(&s("c"), 2));
    assert!(c.pkid_in_flight(&s("c"), 1));
    assert!(c.pkid_in_flight(&s("c"), 3));
    assert_eq!(c.get_pkid(&s("c")), Some(2));
    assert_eq!(c.get_pkid(&s("c")), Some(4));
    c.remove_pkid_info(&s("c"), 1);
    c.remove_pkid_info(&s("c"), 100);
    c.remove_pkid_info(&s("nobody"), 1);
    assert_eq!(c.get_pkid(&s("c")), Some(1));
    assert_eq!(c.get_pkid(&s("c")), Some(5));
}

#[test]
fn acquire_then_release_restores_the_pool() {
    let mut c = cache();
    assert_eq!(c.get_pkid(&s("c")), Some(1));
    assert_eq!(c.get_pkid(&s("c")), Some(2));
    let granted = c.get_pkid(&s("c")).unwrap();
    assert_eq!(granted, 3);
    c.remove_pkid_info(&s("c"), granted);
    assert!(c.pkid_in_flight(&s("c"), 1));
    assert!(c.pkid_in_flight(&s("c"), 2));
    assert!(!c.pkid_in_flight(&s("c"), 3));
    assert_eq!(c.get_pkid(&s("c")), Some(3));
}

#[test]
fn a_full_pool_grants_nothing_until_a_release() {
    let mut c = cache();
    for expected in 1..=65535u32 {
        assert_eq!(c.get_pkid(&s("c")), Some(expected as u16));
    }
    assert_eq!(c.get_pkid(&s("c")), None);
    assert_eq!(c.acquire_pkid(&s("c"), 5, 10), PkidGrant::RetryAfter(10));
    assert_eq!(PKID_RETRY_DELAY_MS, 10);
    assert_eq!(c.acquire_pkid(&s("c"), 9, 10), PkidGrant::RetryAfter(10));
    assert_eq!(c.acquire_pkid(&s("c"), 10, 10), PkidGrant::Exhausted);
    assert_eq!(c.acquire_pkid(&s("c"), 11, 10), PkidGrant::Exhausted);
    assert_eq!(c.acquire_pkid(&s("c"), 11, 10).outcome(), Err(CoreError::PkidExhausted));
    assert_eq!(c.acquire_pkid(&s("c"), 1, 10).outcome(), Ok(None));
    assert_eq!(PkidGrant::Granted(7).outcome(), Ok(Some(7)));
    assert!(c.pkid_in_flight(&s("c"), 65535));
    assert!(c.pkid_in_flight(&s("c"), 1));
    assert_eq!(c.acquire_pkid(&s("other"), 11, 10), PkidGrant::Granted(1));
    c.remove_pkid_info(&s("c"), 40000);
    assert_eq!(c.acquire_pkid(&s("c"), 11, 10), PkidGrant::Granted(40000));
    assert_eq!(c.get_pkid(&s("c")), None);
    c.remove_pkid_info(&s("c"), 65535);
    c.remove_pkid_info(&s("c"), 1);
    assert_eq!(c.get_pkid(&s("c")), Some(1));
    assert_eq!(c.get_pkid(&s("c")), Some(65535));
    assert_eq!(c.get_pkid(&s("c")), None);
}

fn live(keep_live: u16, heartbeat: u64) -> ConnectionLiveTime {
    ConnectionLiveTime { protobol: MQTTProtocol::MQTT5, keep_live, heartbeat }
}

#[test]
fn heartbeat_expires_after_one_and_a_half_intervals() {
    let t = live(10, 100);
    assert!(!t.is_expired(0));
    assert!(!t.is_expired(100));
    assert!(!t.is_expired(114));
    assert!(!t.is_expired(115));
    assert!(t.is_expired(116));
    assert!(t.is_expired(u64::MAX));
    let odd = live(3, 100);
    assert!(!odd.is_expired(104));
    assert!(odd.is_expired(105));
    let zero = live(0, 100);
    assert!(!zero.is_expired(100));
    assert!(zero.is_expired(101));
    let far = live(65535, u64::MAX - 10);
    assert!(!far.is_expired(u64::MAX));
}

#[test]
fn sweeper_names_the_expired_clients() {
    let mut c = cache();
    c.report_heartbeat(&s("a"), live(10, 100));
    c.report_heartbeat(&s("b"), live(10, 110));
    c.report_heartbeat(&s("c"), live(100, 100));
    assert!(c.expired_clients(115).is_empty());
    assert_eq!(c.expired_clients(116), vec![s("a")]);
    let mut at_126 = c.expired_clients(126);
    at_126.sort();
    assert_eq!(at_126, vec![s("a"), s("b")]);
    c.report_heartbeat(&s("a"), live(10, 120));
    assert_eq!(c.expired_clients(126), vec![s("b")]);
    c.remove_heartbeat(&s("b"));
    assert!(c.expired_clients(126).is_empty());
    let mut all = c.expired_clients(10_000);
    all.sort();
    assert_eq!(all, vec![s("a"), s("c")]);
}

fn waiter(create_time: u64) -> (QosAckPacketInfo, tokio::sync::broadcast::Receiver<mqtt_broker::qos::QosAckPackageData>) {
    let (sx, rx) = tokio::sync::broadcast::channel(4);
    (QosAckPacketInfo { sx, create_time }, rx)
}

#[test]
fn ack_waiters_are_kept_by_client_and_pkid() {
    let mut c = cache();
    let (w1, mut rx1) = waiter(11);
    let (w2, mut rx2) = waiter(22);
    c.add_ack_packet(&s("c"), 1, w1);
    c.add_ack_packet(&s("c"), 2, w2);
    assert_eq!(c.get_ack_packet(s("c"), 1).unwrap().create_time, 11);
    assert_eq!(c.get_ack_packet(s("c"), 2).unwrap().create_time, 22);
    assert!(c.get_ack_packet(s("c"), 3).is_none());
    assert!(c.get_ack_packet(s("d"), 1).is_none());
    assert!(c.get_ack_packet(s("c_1"), 1).is_none());

    assert_eq!(c.notify_ack(&s("c"), 1, QosAckPackageType::PubAck), Ok(1));
    let got = rx1.try_recv().unwrap();
    assert_eq!(got.ack_type, QosAckPackageType::PubAck);
    assert_eq!(got.pkid, 1);
    assert!(rx2.try_recv().is_err());
    assert_eq!(c.notify_ack(&s("c"), 2, QosAckPackageType::PubRec), Ok(1));
    let got = rx2.try_recv().unwrap();
    assert_eq!(got.ack_type, QosAckPackageType::PubRec);
    assert_eq!(got.pkid, 2);
    assert_eq!(c.notify_ack(&s("c"), 3, QosAckPackageType::PubAck), Err(CoreError::UnknownWaiter));

    let copy = c.get_ack_packet(s("c"), 1).unwrap();
    assert_eq!(copy.notify(QosAckPackageType::PubComp, 1), Some(1));
    assert_eq!(rx1.try_recv().unwrap().ack_type, QosAckPackageType::PubComp);

    drop(rx2);
    assert_eq!(c.notify_ack(&s("c"), 2, QosAckPackageType::PubComp), Ok(0));

    c.remove_ack_packet(&s("c"), 1);
    assert!(c.get_ack_packet(s("c"), 1).is_none());
    assert!(c.get_ack_packet(s("c"), 2).is_some());
    assert_eq!(c.notify_ack(&s("c"), 1, QosAckPackageType::PubAck), Err(CoreError::UnknownWaiter));
}

#[test]
fn inbound_pkids_are_recorded_once() {
    let mut c = cache();
    assert_eq!(c.add_client_pkid_at(&s("c"), 5, 1000), Ok(()));
    assert_eq!(c.add_client_pkid_at(&s("c"), 5, 2000), Err(CoreError::DuplicateInbound));
    let record = c.get_client_pkid(&s("c"), 5).unwrap();
    assert_eq!(record.client_id, "c");
    assert_eq!(record.create_time, 1000);
    assert!(c.get_client_pkid(&s("c"), 6).is_none());
    assert!(c.get_client_pkid(&s("d"), 5).is_none());
    assert!(c.get_ack_packet(s("c"), 5).is_none());
    c.delete_client_pkid(&s("c"), 5);
    assert!(c.get_client_pkid(&s("c"), 5).is_none());
    assert_eq!(c.add_client_pkid(&s("c"), 5), Ok(()));
    assert!(c.get_client_pkid(&s("c"), 5).unwrap().create_time > 1_600_000_000);
    assert_eq!(c.add_client_pkid(&s("c"), 5), Err(CoreError::DuplicateInbound));
}

#[test]
fn composite_keys_are_client_id_underscore_pkid() {
    assert_eq!(composite_key(&s("c"), 12), "c_12");
    assert_eq!(composite_key(&s("c"), 0), "c_0");
    assert_eq!(composite_key(&s("c"), 65535), "c_65535");
    assert_eq!(composite_key(&s("a_b"), 7), "a_b_7");
    assert_eq!(composite_key(&s(""), 10), "_10");
    assert_eq!(client_key_prefix(&s("abc")), "abc_");
    assert!(has_prefix(&s("abc_1"), &s("abc_")));
    assert!(has_prefix(&s("abc_"), &s("abc_")));
    assert!(has_prefix(&s("abc"), &s("")));
    assert!(!has_prefix(&s("abc"), &s("abc_")));
    assert!(!has_prefix(&s("xabc_1"), &s("abc_")));
}

#[test]
fn remove_session_cascades() {
    let mut c = cache();
    for id in ["c", "c2", "c_x", "d"] {
        c.add_session(s(id), session(id));
        let sub = Subscribe { packet_identifier: 1, filters: vec![filter("/t")] };
        assert_eq!(c.add_client_subscribe(s(id), MQTTProtocol::MQTT5, sub, None), Ok(()));
        assert_eq!(c.get_pkid(&s(id)), Some(1));
        c.report_heartbeat(&s(id), live(10, 0));
        let (w, _rx) = waiter(1);
        c.add_ack_packet(&s(id), 1, w);
        let (w, _rx) = waiter(2);
        c.add_ack_packet(&s(id), 23, w);
        assert_eq!(c.add_client_pkid_at(&s(id), 4, 5), Ok(()));
    }
    c.remove_session(&s("c"));
    assert!(c.get_session_info(&s("c")).is_none());
    assert!(c.is_new_sub(&s("c"), &s("/t")));
    assert!(!c.pkid_in_flight(&s("c"), 1));
    assert!(c.get_ack_packet(s("c"), 1).is_none());
    assert!(c.get_ack_packet(s("c"), 23).is_none());
    assert!(c.get_client_pkid(&s("c"), 4).is_none());
    let mut expired = c.expired_clients(1000);
    expired.sort();
    assert_eq!(expired, vec![s("c2"), s("c_x"), s("d")]);
    for id in ["c2", "d"] {
        assert!(c.get_session_info(&s(id)).is_some());
        assert!(!c.is_new_sub(&s(id), &s("/t")));
        assert!(c.pkid_in_flight(&s(id), 1));
        assert!(c.get_ack_packet(s(id), 1).is_some());
        assert!(c.get_ack_packet(s(id), 23).is_some());
        assert!(c.get_client_pkid(&s(id), 4).is_some());
    }
    // The records of the client "c_x" lie under keys that begin with "c_": they
    // go with the session of "c"; its session and what is keyed by client id stay.
    assert!(c.get_session_info(&s("c_x")).is_some());
    assert!(c.pkid_in_flight(&s("c_x"), 1));
    assert!(c.get_ack_packet(s("c_x"), 1).is_none());
    assert!(c.get_client_pkid(&s("c_x"), 4).is_none());
    c.remove_session(&s("c"));
    assert!(c.get_session_info(&s("d")).is_some());
}

#[test]
fn disconnect_cascade() {
    let mut c = cache();
    c.add_session(s("C"), session("C"));
    assert_eq!(c.add_connection(42, connection(42, "C", 10)), Ok(()));
    assert_eq!(c.get_connect_id(&s("C")), Some(42));
    let plan = disconnect_connection_at(&s("C"), 42, &mut c, 5000);
    assert!(c.get_connection(42).is_none());
    assert_eq!(c.get_connect_id(&s("C")), None);
    assert_eq!(c.get_session_info(&s("C")).unwrap().distinct_time, Some(5000));
    assert_eq!(plan.stop_push_client_id, "C");
    assert_eq!(plan.session_update.client_id, "C");
    assert_eq!(plan.session_update.connect_id, 0);
    assert_eq!(plan.session_update.keep_alive, 0);
    assert_eq!(plan.session_update.session_expiry, 0);
    assert_eq!(plan.session_update.disconnect_ts, 5000);
    assert_eq!(plan.close_connect_id, 42);
    assert_eq!(disconnect_outcome(&plan, true), Ok(42));
    assert_eq!(disconnect_outcome(&plan, false), Err(CoreError::TransientControlPlaneError));
    assert!(c.get_connection(42).is_none());
    assert_eq!(c.get_connect_id(&s("C")), None);
}

#[test]
fn disconnect_of_an_unknown_client_still_removes_the_connection() {
    let mut c = cache();
    c.add_session(s("C"), session("C"));
    assert_eq!(c.add_connection(42, connection(42, "C", 10)), Ok(()));
    let plan = disconnect_connection(&s("ghost"), 42, &mut c);
    assert!(c.get_connection(42).is_none());
    assert!(c.get_session_info(&s("ghost")).is_none());
    assert_eq!(c.get_connect_id(&s("C")), Some(42));
    assert_eq!(plan.close_connect_id, 42);
    assert!(plan.session_update.disconnect_ts > 1_600_000_000);
}

#[test]
fn apply_changes_users_only() {
    let mut c = cache();
    let user = MQTTUser { username: s("u"), password: s("p"), is_superuser: false };
    let put = MetadataChangeData {
        action: MetadataCacheAction::Put,
        data_type: MetadataCacheType::User,
        value: s("{}"),
    };
    c.apply(&put, Some(user.clone()));
    assert_eq!(c.get_user(&s("u")).unwrap().password, "p");
    c.apply(&put, Some(user.clone()));
    assert_eq!(c.get_user(&s("u")).unwrap().password, "p");
    c.apply(&put, None);
    assert!(c.get_user(&s("u")).is_some());
    let topic_del = MetadataChangeData {
        action: MetadataCacheAction::Del,
        data_type: MetadataCacheType::Topic,
        value: s(""),
    };
    c.apply(&topic_del, Some(user.clone()));
    assert!(c.get_user(&s("u")).is_some());
    let cluster_put = MetadataChangeData {
        action: MetadataCacheAction::Put,
        data_type: MetadataCacheType::Cluster,
        value: s(""),
    };
    c.apply(&cluster_put, Some(user.clone()));
    assert_eq!(c.get_cluster_info(), MQTTClusterDynamicConfig::new());
    let del = MetadataChangeData {
        action: MetadataCacheAction::Del,
        data_type: MetadataCacheType::User,
        value: s("{}"),
    };
    c.apply(&del, Some(user.clone()));
    assert!(c.get_user(&s("u")).is_none());
    c.apply(&del, Some(user));
    assert!(c.get_user(&s("u")).is_none());
}
