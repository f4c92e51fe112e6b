use mqtt_broker::connection::{
    build_connection, build_connection_at, get_client_id, response_information, window_is_full,
    Connection, REQUEST_RESPONSE_PREFIX_NAME,
};
use mqtt_broker::error::CoreError;
use mqtt_broker::keep_alive::client_keep_live_time;
use mqtt_broker::metadata::MQTTClusterDynamicConfig;
use mqtt_broker::protocol::{Connect, ConnectProperties};

#[test]
fn build_connection_test() {
    let connect_id = 1;
    let client_id = "client_id-***".to_string();
    let cluster = MQTTClusterDynamicConfig::new();
    let connect = Connect {
        keep_alive: 10,
        client_id: client_id.clone(),
        clean_session: true,
    };
    let connect_properties = ConnectProperties {
        session_expiry_interval: Some(60),
        receive_maximum: Some(100),
        max_packet_size: Some(100),
        request_problem_info: Some(0),
        request_response_info: Some(0),
        topic_alias_max: Some(100),
        user_properties: Vec::new(),
        authentication_method: None,
        authentication_data: None,
    };
    let addr = format!("0.0.0.0:8080");
    let mut conn = build_connection(
        connect_id,
        &client_id,
        &cluster,
        &connect,
        &Some(connect_properties),
        addr,
    );
    assert_eq!(conn.connect_id, connect_id);
    assert_eq!(conn.client_id, client_id);
    assert!(!conn.is_login);
    conn.login_success("".into());
    assert!(conn.is_login);
    assert_eq!(conn.keep_alive, 10);
    assert_eq!(conn.client_max_receive_maximum, 100);
    assert_eq!(conn.max_packet_size, 100);
    assert_eq!(conn.topic_alias_max, 100);
    assert_eq!(conn.request_problem_info, 0);
}

#[test]
fn get_client_id_test() {
    let client_id = "".to_string();
    let (new_client_id, is_new) = get_client_id(&client_id);
    assert!(is_new);
    assert!(!new_client_id.is_empty());

    let client_id = "client_id-***".to_string();
    let (new_client_id, is_new) = get_client_id(&client_id);
    assert!(!is_new);
    assert_eq!(new_client_id, client_id);
    assert!(!new_client_id.is_empty());
}

#[test]
fn response_information_test() {
    let mut connect_properties = ConnectProperties::default();
    connect_properties.request_response_info = Some(1);
    let res = response_information(&Some(connect_properties));
    assert_eq!(res.unwrap(), REQUEST_RESPONSE_PREFIX_NAME.to_string());

    let res = response_information(&Some(ConnectProperties::default()));
    assert!(res.is_none());

    let mut connect_properties = ConnectProperties::default();
    connect_properties.request_response_info = Some(0);
    let res = response_information(&Some(connect_properties));
    assert!(res.is_none());
}

#[test]
fn recv_qos_message_num_test() {
    let conn = Connection::default();
    assert_eq!(conn.get_recv_qos_message(), 0);
    conn.recv_qos_message_incr();
    assert_eq!(conn.get_recv_qos_message(), 1);
    conn.recv_qos_message_decr();
    assert_eq!(conn.get_recv_qos_message(), 0);
}

#[test]
fn send_qos_message_num_test() {
    let conn = Connection::default();
    assert_eq!(conn.get_send_qos_message(), 0);
    conn.send_qos_message_incr();
    assert_eq!(conn.get_send_qos_message(), 1);
    conn.send_qos_message_decr();
    assert_eq!(conn.get_send_qos_message(), 0);
}

#[test]
fn response_information_without_properties_is_none() {
    assert!(response_information(&None).is_none());
    assert_eq!(REQUEST_RESPONSE_PREFIX_NAME, "/sys/request_response/");
}

#[test]
fn generated_client_ids_are_32_hex_digits_and_differ() {
    let (first, first_new) = get_client_id(&String::new());
    let (second, second_new) = get_client_id(&String::new());
    assert!(first_new && second_new);
    assert_eq!(first.len(), 32);
    assert_eq!(second.len(), 32);
    assert!(first.chars().all(|c| c.is_ascii_hexdigit()));
    assert_ne!(first, second);
}

fn cluster_with_caps(receive_max: u16, max_packet_size: u32, topic_alias_max: u16) -> MQTTClusterDynamicConfig {
    let mut cluster = MQTTClusterDynamicConfig::new();
    cluster.protocol.receive_max = receive_max;
    cluster.protocol.max_packet_size = max_packet_size;
    cluster.protocol.topic_alias_max = topic_alias_max;
    cluster
}

fn properties(receive: Option<u16>, packet: Option<u32>, alias: Option<u16>) -> ConnectProperties {
    let mut p = ConnectProperties::default();
    p.receive_maximum = receive;
    p.max_packet_size = packet;
    p.topic_alias_max = alias;
    p
}

fn connect(keep_alive: u16) -> Connect {
    Connect { keep_alive, client_id: "c".to_string(), clean_session: true }
}

#[test]
fn cluster_cap_below_client_value_wins() {
    let cluster = cluster_with_caps(50, 1000, 20);
    let conn = build_connection_at(
        7,
        &"c".to_string(),
        &cluster,
        &connect(30),
        &Some(properties(Some(100), Some(5000), Some(200))),
        "10.0.0.1:1883".to_string(),
        1234,
    );
    assert_eq!(conn.client_max_receive_maximum, 50);
    assert_eq!(conn.max_packet_size, 1000);
    assert_eq!(conn.topic_alias_max, 20);
    assert_eq!(conn.create_time, 1234);
    assert_eq!(conn.source_ip_addr, "10.0.0.1:1883");
    assert_eq!(conn.login_user, "");
    assert!(!conn.is_login);
}

#[test]
fn cluster_cap_above_client_value_keeps_client_value() {
    let cluster = cluster_with_caps(500, 100000, 2000);
    let conn = build_connection_at(
        7,
        &"c".to_string(),
        &cluster,
        &connect(30),
        &Some(properties(Some(100), Some(5000), Some(200))),
        "ip".to_string(),
        0,
    );
    assert_eq!(conn.client_max_receive_maximum, 100);
    assert_eq!(conn.max_packet_size, 5000);
    assert_eq!(conn.topic_alias_max, 200);
}

#[test]
fn cap_equal_to_client_value() {
    let cluster = cluster_with_caps(100, 5000, 200);
    let conn = build_connection_at(
        7,
        &"c".to_string(),
        &cluster,
        &connect(30),
        &Some(properties(Some(100), Some(5000), Some(200))),
        "ip".to_string(),
        0,
    );
    assert_eq!(conn.client_max_receive_maximum, 100);
    assert_eq!(conn.max_packet_size, 5000);
    assert_eq!(conn.topic_alias_max, 200);
}

#[test]
fn missing_properties_take_cluster_values() {
    let cluster = cluster_with_caps(11, 22, 33);
    let conn = build_connection_at(1, &"c".to_string(), &cluster, &connect(5), &None, "ip".to_string(), 0);
    assert_eq!(conn.client_max_receive_maximum, 11);
    assert_eq!(conn.max_packet_size, 22);
    assert_eq!(conn.topic_alias_max, 33);
    assert_eq!(conn.request_problem_info, 0);

    let conn = build_connection_at(
        1,
        &"c".to_string(),
        &cluster,
        &connect(5),
        &Some(ConnectProperties::default()),
        "ip".to_string(),
        0,
    );
    assert_eq!(conn.client_max_receive_maximum, 11);
    assert_eq!(conn.max_packet_size, 22);
    assert_eq!(conn.topic_alias_max, 33);
    assert_eq!(conn.request_problem_info, 0);
}

#[test]
fn request_problem_info_is_taken_from_properties() {
    let cluster = MQTTClusterDynamicConfig::new();
    let mut p = ConnectProperties::default();
    p.request_problem_info = Some(1);
    let conn = build_connection_at(1, &"c".to_string(), &cluster, &connect(5), &Some(p), "ip".to_string(), 0);
    assert_eq!(conn.request_problem_info, 1);
    assert!(conn.is_response_proplem_info());
    let plain = Connection::default();
    assert!(!plain.is_response_proplem_info());
}

#[test]
fn keep_alive_is_granted_within_the_cluster_maximum() {
    let mut cluster = MQTTClusterDynamicConfig::new();
    cluster.protocol.max_server_keep_alive = 3600;
    cluster.protocol.default_server_keep_alive = 60;
    assert_eq!(client_keep_live_time(&cluster, 10), 10);
    assert_eq!(client_keep_live_time(&cluster, 3600), 3600);
    assert_eq!(client_keep_live_time(&cluster, 3601), 3600);
    assert_eq!(client_keep_live_time(&cluster, 65535), 3600);
    assert_eq!(client_keep_live_time(&cluster, 0), 60);
    cluster.protocol.default_server_keep_alive = 5000;
    assert_eq!(client_keep_live_time(&cluster, 0), 3600);
}

#[test]
fn new_connection_has_the_given_fields() {
    let conn = Connection::new(9, &"cid".to_string(), 1, 2, 3, 4, 5, "src".to_string());
    assert_eq!(conn.connect_id, 9);
    assert_eq!(conn.client_id, "cid");
    assert_eq!(conn.client_max_receive_maximum, 1);
    assert_eq!(conn.max_packet_size, 2);
    assert_eq!(conn.topic_alias_max, 3);
    assert_eq!(conn.request_problem_info, 4);
    assert_eq!(conn.keep_alive, 5);
    assert_eq!(conn.source_ip_addr, "src");
    assert!(!conn.is_login);
    assert_eq!(conn.topic_alias_len(), 0);
}

#[test]
fn topic_alias_is_bounded_by_the_connection_limit() {
    let mut conn = Connection::new(9, &"cid".to_string(), 1, 2, 3, 0, 5, "src".to_string());
    assert_eq!(conn.set_topic_alias(0, "t".to_string()), Err(CoreError::AliasOutOfRange));
    assert_eq!(conn.set_topic_alias(4, "t".to_string()), Err(CoreError::AliasOutOfRange));
    assert_eq!(conn.topic_alias_len(), 0);
    assert_eq!(conn.set_topic_alias(1, "a".to_string()), Ok(()));
    assert_eq!(conn.set_topic_alias(3, "c".to_string()), Ok(()));
    assert_eq!(conn.set_topic_alias(2, "b".to_string()), Ok(()));
    assert_eq!(conn.set_topic_alias(3, "c2".to_string()), Ok(()));
    assert_eq!(conn.topic_alias_len(), 3);
    assert_eq!(conn.get_topic_alias(1), Some("a".to_string()));
    assert_eq!(conn.get_topic_alias(2), Some("b".to_string()));
    assert_eq!(conn.get_topic_alias(3), Some("c2".to_string()));
    assert_eq!(conn.get_topic_alias(4), None);
    assert!(conn.topic_alias_exists(2));
    assert!(!conn.topic_alias_exists(0));
}

#[test]
fn snapshot_equals_the_connection_and_shares_its_counters() {
    let mut conn = Connection::new(9, &"cid".to_string(), 1, 2, 3, 0, 5, "src".to_string());
    conn.login_success("user".to_string());
    assert_eq!(conn.set_topic_alias(2, "topic".to_string()), Ok(()));
    let copy = conn.snapshot();
    assert_eq!(copy.connect_id, 9);
    assert_eq!(copy.client_id, "cid");
    assert!(copy.is_login);
    assert_eq!(copy.login_user, "user");
    assert_eq!(copy.get_topic_alias(2), Some("topic".to_string()));
    assert_eq!(copy.topic_alias_len(), 1);
    copy.recv_qos_message_incr();
    copy.send_qos_message_incr();
    copy.send_qos_message_incr();
    assert_eq!(conn.get_recv_qos_message(), 1);
    assert_eq!(conn.get_send_qos_message(), 2);
}

#[test]
fn packet_size_is_checked_against_the_connection_limit() {
    let conn = Connection::new(9, &"cid".to_string(), 1, 100, 3, 0, 5, "src".to_string());
    assert_eq!(conn.check_packet_size(0), Ok(()));
    assert_eq!(conn.check_packet_size(100), Ok(()));
    assert_eq!(conn.check_packet_size(101), Err(CoreError::MaxPacketSizeExceeded));
}

#[test]
fn flow_control_window() {
    assert!(!window_is_full(0, 1));
    assert!(window_is_full(1, 1));
    assert!(window_is_full(2, 1));
    assert!(window_is_full(0, 0));
    assert!(!window_is_full(-1, 0));
    assert!(!window_is_full(65534, 65535));
    assert!(window_is_full(65535, 65535));
    assert!(window_is_full(isize::MAX, 65535));
    assert!(!window_is_full(isize::MIN, 0));
    let conn = Connection::new(9, &"cid".to_string(), 2, 100, 3, 0, 5, "src".to_string());
    assert!(!conn.is_recv_window_full());
    conn.recv_qos_message_incr();
    assert!(!conn.is_recv_window_full());
    conn.recv_qos_message_incr();
    assert!(conn.is_recv_window_full());
    assert!(!conn.is_send_window_full());
    conn.recv_qos_message_decr();
    assert!(!conn.is_recv_window_full());
    conn.send_qos_message_incr();
    conn.send_qos_message_incr();
    assert!(conn.is_send_window_full());
}
