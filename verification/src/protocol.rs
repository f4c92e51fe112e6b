//! The typed packets that the packet layer hands to the core, reduced to the
//! fields that the core stores or reads.

use crate::registry::Record;
use vstd::prelude::*;

verus! {

/// MQTT protocol level of a connection.
#[derive(Clone, Copy, Debug, PartialEq, Eq, Structural)]
pub enum MQTTProtocol {
    MQTT3,
    MQTT4,
    MQTT5,
}

/// Quality of service of a publish or of a subscription.
#[derive(Clone, Copy, Debug, PartialEq, Eq, Structural)]
pub enum QoS {
    AtMostOnce,
    AtLeastOnce,
    ExactlyOnce,
}

/// When retained messages are forwarded to a subscription.
#[derive(Clone, Copy, Debug, PartialEq, Eq, Structural)]
pub enum RetainForwardRule {
    OnEverySubscribe,
    OnNewSubscribe,
    Never,
}

/// The fixed part of a CONNECT packet.
#[derive(Debug)]
pub struct Connect {
    pub keep_alive: u16,
    pub client_id: String,
    pub clean_session: bool,
}

/// The properties of a version 5 CONNECT packet.
#[derive(Debug)]
pub struct ConnectProperties {
    pub session_expiry_interval: Option<u32>,
    pub receive_maximum: Option<u16>,
    pub max_packet_size: Option<u32>,
    pub topic_alias_max: Option<u16>,
    pub request_response_info: Option<u8>,
    pub request_problem_info: Option<u8>,
    pub user_properties: Vec<(String, String)>,
    pub authentication_method: Option<String>,
    pub authentication_data: Option<Vec<u8>>,
}

impl Default for ConnectProperties {
    fn default() -> (properties: ConnectProperties)
        ensures
            properties.session_expiry_interval is None,
            properties.receive_maximum is None,
            properties.max_packet_size is None,
            properties.topic_alias_max is None,
            properties.request_response_info is None,
            properties.request_problem_info is None,
            properties.user_properties@.len() == 0,
            properties.authentication_method is None,
            properties.authentication_data is None,
    {
        ConnectProperties {
            session_expiry_interval: None,
            receive_maximum: None,
            max_packet_size: None,
            topic_alias_max: None,
            request_response_info: None,
            request_problem_info: None,
            user_properties: Vec::new(),
            authentication_method: None,
            authentication_data: None,
        }
    }
}

/// The properties of a PUBLISH packet.
#[derive(Debug)]
pub struct PublishProperties {
    pub payload_format_indicator: Option<u8>,
    pub message_expiry_interval: Option<u32>,
    pub topic_alias: Option<u16>,
    pub response_topic: Option<String>,
    pub correlation_data: Option<Vec<u8>>,
    pub user_properties: Vec<(String, String)>,
    pub subscription_identifiers: Vec<usize>,
    pub content_type: Option<String>,
}

impl Default for PublishProperties {
    fn default() -> (properties: PublishProperties)
        ensures
            properties.payload_format_indicator is None,
            properties.message_expiry_interval is None,
            properties.topic_alias is None,
            properties.response_topic is None,
            properties.correlation_data is None,
            properties.user_properties@.len() == 0,
            properties.subscription_identifiers@.len() == 0,
            properties.content_type is None,
    {
        PublishProperties {
            payload_format_indicator: None,
            message_expiry_interval: None,
            topic_alias: None,
            response_topic: None,
            correlation_data: None,
            user_properties: Vec::new(),
            subscription_identifiers: Vec::new(),
            content_type: None,
        }
    }
}

/// One topic filter of a SUBSCRIBE packet.
#[derive(Debug)]
pub struct Filter {
    pub path: String,
    pub qos: QoS,
    pub nolocal: bool,
    pub preserve_retain: bool,
    pub retain_forward_rule: RetainForwardRule,
}

/// A filter as a mathematical value.
pub struct FilterView {
    pub path: Seq<char>,
    pub qos: QoS,
    pub nolocal: bool,
    pub preserve_retain: bool,
    pub retain_forward_rule: RetainForwardRule,
}

impl View for Filter {
    type V = FilterView;

    open spec fn view(&self) -> FilterView {
        FilterView {
            path: self.path@,
            qos: self.qos,
            nolocal: self.nolocal,
            preserve_retain: self.preserve_retain,
            retain_forward_rule: self.retain_forward_rule,
        }
    }
}

impl Clone for Filter {
    fn clone(&self) -> (copy: Filter)
        ensures
            copy@ == self@,
    {
        Filter {
            path: self.path.clone(),
            qos: self.qos,
            nolocal: self.nolocal,
            preserve_retain: self.preserve_retain,
            retain_forward_rule: self.retain_forward_rule,
        }
    }
}

/// A SUBSCRIBE packet.
#[derive(Debug)]
pub struct Subscribe {
    pub packet_identifier: u16,
    pub filters: Vec<Filter>,
}

/// The properties of a version 5 SUBSCRIBE packet.
#[derive(Debug)]
pub struct SubscribeProperties {
    pub subscription_identifier: Option<usize>,
    pub user_properties: Vec<(String, String)>,
}

/// Subscribe properties as a mathematical value.
pub struct SubscribePropertiesView {
    pub subscription_identifier: Option<usize>,
    pub user_properties: Seq<(Seq<char>, Seq<char>)>,
}

impl View for SubscribeProperties {
    type V = SubscribePropertiesView;

    open spec fn view(&self) -> SubscribePropertiesView {
        SubscribePropertiesView {
            subscription_identifier: self.subscription_identifier,
            user_properties: self.user_properties.deep_view(),
        }
    }
}

/// A copy of a list of user properties, pair by pair.
pub fn clone_user_properties(pairs: &Vec<(String, String)>) -> (copy: Vec<(String, String)>)
    ensures
        copy.deep_view() == pairs.deep_view(),
{
    let mut copy: Vec<(String, String)> = Vec::new();
    let mut i: usize = 0;
    while i < pairs.len()
        invariant
            i <= pairs.len(),
            copy@.len() == i,
            forall|j: int| 0 <= j < i ==> (#[trigger] copy@[j]).deep_view() == pairs@[j].deep_view(),
        decreases pairs.len() - i,
    {
        let pair = &pairs[i];
        copy.push((pair.0.clone(), pair.1.clone()));
        i += 1;
    }
    assert(copy.deep_view() =~= pairs.deep_view());
    copy
}

impl Clone for SubscribeProperties {
    fn clone(&self) -> (copy: SubscribeProperties)
        ensures
            copy@ == self@,
    {
        SubscribeProperties {
            subscription_identifier: self.subscription_identifier,
            user_properties: clone_user_properties(&self.user_properties),
        }
    }
}

/// What the core keeps of one subscription: the protocol level of the
/// subscriber, the filter and the properties of the SUBSCRIBE packet.
#[derive(Debug)]
pub struct SubscribeData {
    pub protocol: MQTTProtocol,
    pub filter: Filter,
    pub subscribe_properties: Option<SubscribeProperties>,
}

/// A subscription as a mathematical value.
pub struct SubscribeDataView {
    pub protocol: MQTTProtocol,
    pub filter: FilterView,
    pub subscribe_properties: Option<SubscribePropertiesView>,
}

/// The view of optional subscribe properties.
pub open spec fn properties_view(properties: Option<SubscribeProperties>) -> Option<
    SubscribePropertiesView,
> {
    match properties {
        Some(p) => Some(p@),
        None => None,
    }
}

impl View for SubscribeData {
    type V = SubscribeDataView;

    open spec fn view(&self) -> SubscribeDataView {
        SubscribeDataView {
            protocol: self.protocol,
            filter: self.filter@,
            subscribe_properties: properties_view(self.subscribe_properties),
        }
    }
}

impl Record for SubscribeData {
    open spec fn wf(&self) -> bool {
        true
    }
}

impl Clone for SubscribeData {
    fn clone(&self) -> (copy: SubscribeData)
        ensures
            copy@ == self@,
    {
        let subscribe_properties = match &self.subscribe_properties {
            Some(p) => Some(p.clone()),
            None => None,
        };
        SubscribeData { protocol: self.protocol, filter: self.filter.clone(), subscribe_properties }
    }
}

} // verus!
