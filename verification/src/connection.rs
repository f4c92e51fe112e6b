//! The runtime state of one network connection, and how it is derived from a
//! CONNECT packet and the cluster's limits.

use crate::clock::now_second;
use crate::error::CoreError;
use crate::identity::unique_id;
use crate::keep_alive::{client_keep_live_time, effective_keep_alive};
use crate::metadata::MQTTClusterDynamicConfig;
use crate::protocol::{Connect, ConnectProperties};
use crate::registry::{AliasIndex, Record, Registry};
use crate::sets::lemma_count_within;
use std::sync::atomic::{AtomicIsize, Ordering};
use std::sync::Arc;
use vstd::prelude::*;

verus! {

/// The prefix of the response topics that the broker offers to clients.
pub const REQUEST_RESPONSE_PREFIX_NAME: &'static str = "/sys/request_response/";

/// `Arc::clone`: another handle to the same counter.
#[verifier::external_body]
fn share_counter(counter: &Arc<AtomicIsize>) -> (shared: Arc<AtomicIsize>)
    ensures
        shared == *counter,
{
    Arc::clone(counter)
}

/// The runtime state of a connection.
///
/// The two flow-control counters are atomics shared by every copy of the
/// connection; they are no part of its view.
pub struct Connection {
    /// Connection id, unique for the lifetime of the broker.
    pub connect_id: u64,
    /// The client id of the client on this connection.
    pub client_id: String,
    /// Whether the client has logged in.
    pub is_login: bool,
    pub source_ip_addr: String,
    pub login_user: String,
    /// Seconds the connection may stay silent before it is given up.
    pub keep_alive: u16,
    /// The topic that each alias of this connection stands for.
    pub topic_alias: Registry<AliasIndex, String>,
    /// How many QoS 1 and QoS 2 publishes the client accepts in flight.
    pub client_max_receive_maximum: u16,
    /// The largest frame, in bytes, accepted on this connection.
    pub max_packet_size: u32,
    /// The largest topic alias accepted on this connection.
    pub topic_alias_max: u16,
    /// Whether the client asked for reason strings on errors.
    pub request_problem_info: u8,
    /// QoS 1 and QoS 2 publishes received and not yet acknowledged.
    pub receive_qos_message: Arc<AtomicIsize>,
    /// QoS 1 and QoS 2 publishes sent and not yet acknowledged.
    pub sender_qos_message: Arc<AtomicIsize>,
    /// When the connection was created, in seconds since the epoch.
    pub create_time: u64,
}

/// A connection as a mathematical value.
pub struct ConnectionView {
    pub connect_id: u64,
    pub client_id: Seq<char>,
    pub is_login: bool,
    pub source_ip_addr: Seq<char>,
    pub login_user: Seq<char>,
    pub keep_alive: u16,
    pub topic_alias: Map<u16, Seq<char>>,
    pub client_max_receive_maximum: u16,
    pub max_packet_size: u32,
    pub topic_alias_max: u16,
    pub request_problem_info: u8,
    pub create_time: u64,
}

impl ConnectionView {
    /// Every alias lies between 1 and the connection's limit.
    pub open spec fn aliases_in_range(self) -> bool {
        forall|alias: u16| #[trigger]
            self.topic_alias.dom().contains(alias) ==> 1 <= alias <= self.topic_alias_max
    }

    /// The connection after a login as `user_name`.
    pub open spec fn logged_in(self, user_name: Seq<char>) -> ConnectionView {
        ConnectionView { is_login: true, login_user: user_name, ..self }
    }

    /// The connection after `alias` was set to stand for `topic_name`.
    pub open spec fn with_alias(self, alias: u16, topic_name: Seq<char>) -> ConnectionView {
        ConnectionView { topic_alias: self.topic_alias.insert(alias, topic_name), ..self }
    }
}

impl View for Connection {
    type V = ConnectionView;

    open spec fn view(&self) -> ConnectionView {
        ConnectionView {
            connect_id: self.connect_id,
            client_id: self.client_id@,
            is_login: self.is_login,
            source_ip_addr: self.source_ip_addr@,
            login_user: self.login_user@,
            keep_alive: self.keep_alive,
            topic_alias: self.topic_alias@,
            client_max_receive_maximum: self.client_max_receive_maximum,
            max_packet_size: self.max_packet_size,
            topic_alias_max: self.topic_alias_max,
            request_problem_info: self.request_problem_info,
            create_time: self.create_time,
        }
    }
}

impl Record for Connection {
    open spec fn wf(&self) -> bool {
        &&& self.topic_alias.wf()
        &&& self@.aliases_in_range()
    }
}

/// Whether `in_flight` publishes that await their acknowledgement fill a
/// window of `receive_maximum`.
pub open spec fn window_full(in_flight: isize, receive_maximum: u16) -> bool {
    in_flight >= receive_maximum
}

/// Whether `in_flight` publishes that await their acknowledgement fill a
/// window of `receive_maximum`, so that no further one may be sent.
pub fn window_is_full(in_flight: isize, receive_maximum: u16) -> (full: bool)
    ensures
        full == window_full(in_flight, receive_maximum),
{
    in_flight >= 0 && in_flight as u64 >= receive_maximum as u64
}

/// The value that a connection gets for a limit: what the client asked for,
/// capped by the cluster; the cluster's value where the client asked for none.
pub open spec fn capped_u16(requested: Option<u16>, cap: u16) -> u16 {
    match requested {
        Some(value) => if value < cap {
            value
        } else {
            cap
        },
        None => cap,
    }
}

/// As [`capped_u16`], for 32-bit limits.
pub open spec fn capped_u32(requested: Option<u32>, cap: u32) -> u32 {
    match requested {
        Some(value) => if value < cap {
            value
        } else {
            cap
        },
        None => cap,
    }
}

/// The connection that a CONNECT packet gives rise to under the limits of
/// `cluster`, created at `create_time`.
pub open spec fn built_connection(
    connect_id: u64,
    client_id: Seq<char>,
    cluster: MQTTClusterDynamicConfig,
    keep_alive: u16,
    connect_properties: Option<ConnectProperties>,
    source_ip_addr: Seq<char>,
    create_time: u64,
) -> ConnectionView {
    ConnectionView {
        connect_id,
        client_id,
        is_login: false,
        source_ip_addr,
        login_user: Seq::empty(),
        keep_alive: effective_keep_alive(cluster, keep_alive),
        topic_alias: Map::empty(),
        client_max_receive_maximum: match connect_properties {
            Some(p) => capped_u16(p.receive_maximum, cluster.protocol.receive_max),
            None => cluster.protocol.receive_max,
        },
        max_packet_size: match connect_properties {
            Some(p) => capped_u32(p.max_packet_size, cluster.protocol.max_packet_size),
            None => cluster.protocol.max_packet_size,
        },
        topic_alias_max: match connect_properties {
            Some(p) => capped_u16(p.topic_alias_max, cluster.protocol.topic_alias_max),
            None => cluster.protocol.topic_alias_max,
        },
        request_problem_info: match connect_properties {
            Some(p) => match p.request_problem_info {
                Some(value) => value,
                None => 0,
            },
            None => 0,
        },
        create_time,
    }
}

fn cap_u16(requested: Option<u16>, cap: u16) -> (limit: u16)
    ensures
        limit == capped_u16(requested, cap),
{
    match requested {
        Some(value) => if value < cap {
            value
        } else {
            cap
        },
        None => cap,
    }
}

fn cap_u32(requested: Option<u32>, cap: u32) -> (limit: u32)
    ensures
        limit == capped_u32(requested, cap),
{
    match requested {
        Some(value) => if value < cap {
            value
        } else {
            cap
        },
        None => cap,
    }
}

impl Connection {
    /// A connection that is not logged in and has no topic alias, created at
    /// `create_time`.
    pub fn new_at(
        connect_id: u64,
        client_id: &String,
        receive_maximum: u16,
        max_packet_size: u32,
        topic_alias_max: u16,
        request_problem_info: u8,
        keep_alive: u16,
        source_ip_addr: String,
        create_time: u64,
    ) -> (connection: Connection)
        ensures
            connection.wf(),
            connection@ == (ConnectionView {
                connect_id,
                client_id: client_id@,
                is_login: false,
                source_ip_addr: source_ip_addr@,
                login_user: Seq::empty(),
                keep_alive,
                topic_alias: Map::empty(),
                client_max_receive_maximum: receive_maximum,
                max_packet_size,
                topic_alias_max,
                request_problem_info,
                create_time,
            }),
    {
        Connection {
            connect_id,
            client_id: client_id.clone(),
            is_login: false,
            source_ip_addr,
            login_user: String::new(),
            keep_alive,
            topic_alias: Registry::new(),
            client_max_receive_maximum: receive_maximum,
            max_packet_size,
            topic_alias_max,
            request_problem_info,
            receive_qos_message: Arc::new(AtomicIsize::new(0)),
            sender_qos_message: Arc::new(AtomicIsize::new(0)),
            create_time,
        }
    }

    /// A connection that is not logged in and has no topic alias, created now.
    pub fn new(
        connect_id: u64,
        client_id: &String,
        receive_maximum: u16,
        max_packet_size: u32,
        topic_alias_max: u16,
        request_problem_info: u8,
        keep_alive: u16,
        source_ip_addr: String,
    ) -> (connection: Connection)
        ensures
            connection.wf(),
            connection@ == (ConnectionView {
                connect_id,
                client_id: client_id@,
                is_login: false,
                source_ip_addr: source_ip_addr@,
                login_user: Seq::empty(),
                keep_alive,
                topic_alias: Map::empty(),
                client_max_receive_maximum: receive_maximum,
                max_packet_size,
                topic_alias_max,
                request_problem_info,
                create_time: connection@.create_time,
            }),
    {
        Connection::new_at(
            connect_id,
            client_id,
            receive_maximum,
            max_packet_size,
            topic_alias_max,
            request_problem_info,
            keep_alive,
            source_ip_addr,
            now_second(),
        )
    }

    /// Marks the connection as logged in as `user_name`.
    pub fn login_success(&mut self, user_name: String)
        ensures
            final(self)@ == old(self)@.logged_in(user_name@),
            old(self).wf() ==> final(self).wf(),
    {
        self.is_login = true;
        self.login_user = user_name;
        proof {
            if old(self).wf() {
                assert(old(self)@.aliases_in_range());
            }
        }
    }

    /// Whether the client asked for reason strings on errors.
    pub fn is_response_proplem_info(&self) -> (wanted: bool)
        ensures
            wanted == (self@.request_problem_info == 1),
    {
        self.request_problem_info == 1
    }

    /// The number of received QoS 1 and QoS 2 publishes that await their
    /// acknowledgement, as the shared counter holds it at the moment of the call.
    pub fn get_recv_qos_message(&self) -> isize {
        self.receive_qos_message.load(Ordering::Relaxed)
    }

    /// Counts one more received publish in flight.
    pub fn recv_qos_message_incr(&self) {
        let _ = self.receive_qos_message.fetch_add(1, Ordering::Relaxed);
    }

    /// Counts one received publish in flight less.
    pub fn recv_qos_message_decr(&self) {
        let _ = self.receive_qos_message.fetch_add(-1, Ordering::Relaxed);
    }

    /// The number of sent QoS 1 and QoS 2 publishes that await their
    /// acknowledgement, as the shared counter holds it at the moment of the call.
    pub fn get_send_qos_message(&self) -> isize {
        self.sender_qos_message.load(Ordering::Relaxed)
    }

    /// Counts one more sent publish in flight.
    pub fn send_qos_message_incr(&self) {
        let _ = self.sender_qos_message.fetch_add(1, Ordering::Relaxed);
    }

    /// Counts one sent publish in flight less.
    pub fn send_qos_message_decr(&self) {
        let _ = self.sender_qos_message.fetch_add(-1, Ordering::Relaxed);
    }

    /// Whether the received publishes that await their acknowledgement fill the
    /// connection's window, going by the counter as it stands at the moment of
    /// the call.
    pub fn is_recv_window_full(&self) -> bool {
        window_is_full(self.get_recv_qos_message(), self.client_max_receive_maximum)
    }

    /// Whether the sent publishes that await their acknowledgement fill the
    /// connection's window, going by the counter as it stands at the moment of
    /// the call.
    pub fn is_send_window_full(&self) -> bool {
        window_is_full(self.get_send_qos_message(), self.client_max_receive_maximum)
    }

    /// Whether a frame of `size` bytes may pass on this connection.
    pub fn check_packet_size(&self, size: u32) -> (checked: Result<(), CoreError>)
        ensures
            checked == (if size <= self@.max_packet_size {
                Ok::<(), CoreError>(())
            } else {
                Err::<(), CoreError>(CoreError::MaxPacketSizeExceeded)
            }),
    {
        if size <= self.max_packet_size {
            Ok(())
        } else {
            Err(CoreError::MaxPacketSizeExceeded)
        }
    }

    /// Lets `alias` stand for `topic_name` on this connection. An alias of zero
    /// or above the connection's limit is refused and changes nothing.
    pub fn set_topic_alias(&mut self, alias: u16, topic_name: String) -> (set: Result<(), CoreError>)
        requires
            old(self).wf(),
        ensures
            final(self).wf(),
            1 <= alias <= old(self)@.topic_alias_max ==> set == Ok::<(), CoreError>(())
                && final(self)@ == old(self)@.with_alias(alias, topic_name@),
            !(1 <= alias <= old(self)@.topic_alias_max) ==> set == Err::<(), CoreError>(
                CoreError::AliasOutOfRange,
            ) && final(self)@ == old(self)@,
    {
        if alias == 0 || alias > self.topic_alias_max {
            return Err(CoreError::AliasOutOfRange);
        }
        self.topic_alias.insert(alias, topic_name);
        proof {
            assert(old(self)@.aliases_in_range());
            assert forall|a: u16| #[trigger] self@.topic_alias.dom().contains(a) implies 1 <= a
                <= self@.topic_alias_max by {
                if a != alias {
                    assert(old(self)@.topic_alias.dom().contains(a));
                }
            }
        }
        Ok(())
    }

    /// The topic that `alias` stands for on this connection, if it is set.
    pub fn get_topic_alias(&self, alias: u16) -> (topic_name: Option<String>)
        requires
            self.wf(),
        ensures
            topic_name is Some == self@.topic_alias.dom().contains(alias),
            topic_name matches Some(name) ==> name@ == self@.topic_alias[alias],
    {
        match self.topic_alias.get(&alias) {
            Some(name) => Some(name.clone()),
            None => None,
        }
    }

    /// Whether `alias` is set on this connection.
    pub fn topic_alias_exists(&self, alias: u16) -> (set: bool)
        ensures
            set == self@.topic_alias.dom().contains(alias),
    {
        self.topic_alias.contains_key(&alias)
    }

    /// The number of aliases set on this connection; never more than the
    /// connection's limit.
    pub fn topic_alias_len(&self) -> (n: usize)
        requires
            self.wf(),
        ensures
            self@.topic_alias.dom().finite(),
            n == self@.topic_alias.dom().len(),
            n <= self@.topic_alias_max,
    {
        proof {
            self.topic_alias.lemma_len();
            lemma_count_within(self@.topic_alias.dom(), self.topic_alias_max);
        }
        self.topic_alias.len()
    }

    /// A copy of the connection. The copy and this connection share the two
    /// flow-control counters.
    pub fn snapshot(&self) -> (copy: Connection)
        requires
            self.wf(),
        ensures
            copy.wf(),
            copy@ == self@,
    {
        Connection {
            connect_id: self.connect_id,
            client_id: self.client_id.clone(),
            is_login: self.is_login,
            source_ip_addr: self.source_ip_addr.clone(),
            login_user: self.login_user.clone(),
            keep_alive: self.keep_alive,
            topic_alias: copy_alias_table(&self.topic_alias),
            client_max_receive_maximum: self.client_max_receive_maximum,
            max_packet_size: self.max_packet_size,
            topic_alias_max: self.topic_alias_max,
            request_problem_info: self.request_problem_info,
            receive_qos_message: share_counter(&self.receive_qos_message),
            sender_qos_message: share_counter(&self.sender_qos_message),
            create_time: self.create_time,
        }
    }

    /// A well-formed connection keeps every alias within its limit.
    pub proof fn lemma_aliases_bounded(&self)
        requires
            self.wf(),
        ensures
            self@.aliases_in_range(),
            self@.topic_alias.dom().finite(),
            self@.topic_alias.dom().len() <= self@.topic_alias_max,
    {
        self.topic_alias.lemma_len();
        lemma_count_within(self@.topic_alias.dom(), self.topic_alias_max);
    }
}

impl Default for Connection {
    fn default() -> (connection: Connection)
        ensures
            connection.wf(),
            connection@ == (ConnectionView {
                connect_id: 0,
                client_id: Seq::empty(),
                is_login: false,
                source_ip_addr: Seq::empty(),
                login_user: Seq::empty(),
                keep_alive: 0,
                topic_alias: Map::empty(),
                client_max_receive_maximum: 0,
                max_packet_size: 0,
                topic_alias_max: 0,
                request_problem_info: 0,
                create_time: 0,
            }),
    {
        Connection {
            connect_id: 0,
            client_id: String::new(),
            is_login: false,
            source_ip_addr: String::new(),
            login_user: String::new(),
            keep_alive: 0,
            topic_alias: Registry::new(),
            client_max_receive_maximum: 0,
            max_packet_size: 0,
            topic_alias_max: 0,
            request_problem_info: 0,
            receive_qos_message: Arc::new(AtomicIsize::new(0)),
            sender_qos_message: Arc::new(AtomicIsize::new(0)),
            create_time: 0,
        }
    }
}

/// A copy of an alias table, entry by entry.
fn copy_alias_table(table: &Registry<AliasIndex, String>) -> (copy: Registry<AliasIndex, String>)
    requires
        table.wf(),
    ensures
        copy.wf(),
        copy@ == table@,
{
    let mut copy: Registry<AliasIndex, String> = Registry::new();
    let mut i: usize = 0;
    proof {
        table.lemma_slots();
    }
    while i < table.len()
        invariant
            table.wf(),
            copy.wf(),
            i <= table.slot_keys().len(),
            table.slot_keys().len() == table.slot_values().len(),
            forall|j: int|
                0 <= j < table.slot_keys().len() ==> table@.dom().contains(#[trigger] table.slot_keys()[j])
                    && table@[table.slot_keys()[j]] == table.slot_values()[j]@,
            forall|k: u16| #[trigger]
                copy@.dom().contains(k) ==> table@.dom().contains(k) && copy@[k] == table@[k],
            forall|j: int| 0 <= j < i ==> copy@.dom().contains(#[trigger] table.slot_keys()[j]),
        decreases table.slot_keys().len() - i,
    {
        let alias = *table.key_at(i);
        let name = table.value_at(i).clone();
        copy.insert(alias, name);
        i += 1;
    }
    proof {
        assert forall|k: u16| table@.dom().contains(k) implies copy@.dom().contains(k) by {
            let j = choose|j: int| 0 <= j < table.slot_keys().len() && table.slot_keys()[j] == k;
        }
        assert(copy@ =~= table@);
    }
    copy
}

/// The connection for a CONNECT packet, created at `create_time`: the client's
/// wishes for the receive maximum, the packet size and the topic alias maximum
/// are capped by the cluster's values.
pub fn build_connection_at(
    connect_id: u64,
    client_id: &String,
    cluster: &MQTTClusterDynamicConfig,
    connect: &Connect,
    connect_properties: &Option<ConnectProperties>,
    source_ip_addr: String,
    create_time: u64,
) -> (connection: Connection)
    ensures
        connection.wf(),
        connection@ == built_connection(
            connect_id,
            client_id@,
            *cluster,
            connect.keep_alive,
            *connect_properties,
            source_ip_addr@,
            create_time,
        ),
{
    let keep_alive = client_keep_live_time(cluster, connect.keep_alive);
    let (client_receive_maximum, max_packet_size, topic_alias_max, request_problem_info) =
        match connect_properties {
        Some(properties) => (
            cap_u16(properties.receive_maximum, cluster.protocol.receive_max),
            cap_u32(properties.max_packet_size, cluster.protocol.max_packet_size),
            cap_u16(properties.topic_alias_max, cluster.protocol.topic_alias_max),
            match properties.request_problem_info {
                Some(value) => value,
                None => 0,
            },
        ),
        None => (
            cluster.protocol.receive_max,
            cluster.protocol.max_packet_size,
            cluster.protocol.topic_alias_max,
            0,
        ),
    };
    Connection::new_at(
        connect_id,
        client_id,
        client_receive_maximum,
        max_packet_size,
        topic_alias_max,
        request_problem_info,
        keep_alive,
        source_ip_addr,
        create_time,
    )
}

/// The connection for a CONNECT packet, created now.
pub fn build_connection(
    connect_id: u64,
    client_id: &String,
    cluster: &MQTTClusterDynamicConfig,
    connect: &Connect,
    connect_properties: &Option<ConnectProperties>,
    source_ip_addr: String,
) -> (connection: Connection)
    ensures
        connection.wf(),
        connection@ == built_connection(
            connect_id,
            client_id@,
            *cluster,
            connect.keep_alive,
            *connect_properties,
            source_ip_addr@,
            connection@.create_time,
        ),
{
    build_connection_at(
        connect_id,
        client_id,
        cluster,
        connect,
        connect_properties,
        source_ip_addr,
        now_second(),
    )
}

/// The client id for a connection: the client's own id, or a generated one
/// where the client supplied an empty id. The generated id is not empty.
pub fn get_client_id(client_id: &String) -> (chosen: (String, bool))
    ensures
        chosen.1 == (client_id@.len() == 0),
        !chosen.1 ==> chosen.0@ == client_id@,
        chosen.0@.len() > 0,
{
    if client_id.as_str().is_empty() {
        (unique_id(), true)
    } else {
        (client_id.clone(), false)
    }
}

/// Whether the client asked, in its CONNECT properties, for response information.
pub open spec fn wants_response_information(connect_properties: Option<ConnectProperties>) -> bool {
    connect_properties matches Some(p) && p.request_response_info == Some(1u8)
}

/// The response-topic prefix for a client that asked for response information.
pub fn response_information(connect_properties: &Option<ConnectProperties>) -> (prefix: Option<String>)
    ensures
        prefix is Some == wants_response_information(*connect_properties),
        prefix matches Some(text) ==> text@ == REQUEST_RESPONSE_PREFIX_NAME@,
{
    if let Some(properties) = connect_properties {
        if let Some(request_response_info) = properties.request_response_info {
            if request_response_info == 1 {
                return Some(REQUEST_RESPONSE_PREFIX_NAME.to_string());
            }
        }
    }
    None
}

} // verus!
