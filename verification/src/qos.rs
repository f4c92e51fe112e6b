//! Acknowledgement tracking for QoS 1 and QoS 2 publishes: the waiter that a
//! sender registers for a packet identifier, the record of an inbound packet
//! identifier, and the steps of an acknowledgement exchange.

use crate::protocol::QoS;
use crate::registry::Record;
use tokio::sync::broadcast::Sender;
use vstd::prelude::*;

verus! {

/// The sending half of a `tokio` broadcast channel, opaque to the verifier.
#[verifier::external_type_specification]
#[verifier::external_body]
#[verifier::reject_recursive_types(T)]
pub struct ExSender<T>(Sender<T>);

/// The kind of an acknowledgement packet.
#[derive(Clone, Copy, Debug, PartialEq, Eq, Structural)]
pub enum QosAckPackageType {
    PubAck,
    PubComp,
    PubRel,
    PubRec,
}

/// What is pushed to a waiter when an acknowledgement arrives.
#[derive(Clone, Copy, Debug, PartialEq, Eq, Structural)]
pub struct QosAckPackageData {
    pub ack_type: QosAckPackageType,
    pub pkid: u16,
}

/// A waiter for the acknowledgements of one outbound publish.
pub struct QosAckPacketInfo {
    /// The channel on which the acknowledgements are handed on.
    pub sx: Sender<QosAckPackageData>,
    /// When the waiter was registered, in seconds since the epoch.
    pub create_time: u64,
}

impl View for QosAckPacketInfo {
    type V = QosAckPacketInfo;

    open spec fn view(&self) -> QosAckPacketInfo {
        *self
    }
}

impl Record for QosAckPacketInfo {
    open spec fn wf(&self) -> bool {
        true
    }
}

/// `Clone::clone` of a broadcast `Sender`: another handle to the same channel.
#[verifier::external_body]
fn share_sender(sx: &Sender<QosAckPackageData>) -> (shared: Sender<QosAckPackageData>)
    ensures
        shared == *sx,
{
    sx.clone()
}

/// `Sender::send`: hands `data` to the receivers of the channel and tells how
/// many there were, or nothing where the channel has no receiver. The outcome
/// depends on who listens, so nothing is said of it.
#[verifier::external_body]
fn send_ack(sx: &Sender<QosAckPackageData>, data: QosAckPackageData) -> (receivers: Option<usize>) {
    sx.send(data).ok()
}

impl QosAckPacketInfo {
    /// A copy of the waiter, on the same channel.
    pub fn snapshot(&self) -> (copy: QosAckPacketInfo)
        ensures
            copy == *self,
    {
        QosAckPacketInfo { sx: share_sender(&self.sx), create_time: self.create_time }
    }

    /// Pushes an acknowledgement to the waiter. Returns how many receivers the
    /// channel had, or nothing where it had none.
    pub fn notify(&self, ack_type: QosAckPackageType, pkid: u16) -> (receivers: Option<usize>) {
        send_ack(&self.sx, QosAckPackageData { ack_type, pkid })
    }
}

/// The record of an inbound packet identifier that awaits its release.
#[derive(Debug)]
pub struct ClientPkidData {
    pub client_id: String,
    pub create_time: u64,
}

/// An inbound record as a mathematical value.
pub struct ClientPkidView {
    pub client_id: Seq<char>,
    pub create_time: u64,
}

impl View for ClientPkidData {
    type V = ClientPkidView;

    open spec fn view(&self) -> ClientPkidView {
        ClientPkidView { client_id: self.client_id@, create_time: self.create_time }
    }
}

impl Record for ClientPkidData {
    open spec fn wf(&self) -> bool {
        true
    }
}

impl Clone for ClientPkidData {
    fn clone(&self) -> (copy: ClientPkidData)
        ensures
            copy@ == self@,
    {
        ClientPkidData { client_id: self.client_id.clone(), create_time: self.create_time }
    }
}

/// Where an outbound publish stands in its acknowledgement exchange.
#[derive(Clone, Copy, Debug, PartialEq, Eq, Structural)]
pub enum QosFlowState {
    /// The publish was sent and nothing has come back.
    Sent,
    /// QoS 2 only: PUBREC has come, PUBCOMP is awaited.
    WaitingComp,
    /// The exchange is complete; the packet identifier is free again.
    Done,
}

/// The state of an exchange after an acknowledgement of kind `ack`.
///
/// QoS 1 ends with PUBACK. QoS 2 goes on with PUBREC, which may come twice, and
/// ends with PUBCOMP. A QoS 0 publish awaits nothing. An acknowledgement that
/// the state does not await changes nothing.
pub open spec fn flow_after(qos: QoS, state: QosFlowState, ack: QosAckPackageType) -> QosFlowState {
    match qos {
        QoS::AtMostOnce => QosFlowState::Done,
        QoS::AtLeastOnce => match (state, ack) {
            (QosFlowState::Sent, QosAckPackageType::PubAck) => QosFlowState::Done,
            _ => state,
        },
        QoS::ExactlyOnce => match (state, ack) {
            (QosFlowState::Sent, QosAckPackageType::PubRec) => QosFlowState::WaitingComp,
            (QosFlowState::WaitingComp, QosAckPackageType::PubComp) => QosFlowState::Done,
            _ => state,
        },
    }
}

/// One step of the acknowledgement exchange of an outbound publish.
pub fn qos_flow_step(qos: QoS, state: QosFlowState, ack: QosAckPackageType) -> (next: QosFlowState)
    ensures
        next == flow_after(qos, state, ack),
{
    match qos {
        QoS::AtMostOnce => QosFlowState::Done,
        QoS::AtLeastOnce => match (state, ack) {
            (QosFlowState::Sent, QosAckPackageType::PubAck) => QosFlowState::Done,
            _ => state,
        },
        QoS::ExactlyOnce => match (state, ack) {
            (QosFlowState::Sent, QosAckPackageType::PubRec) => QosFlowState::WaitingComp,
            (QosFlowState::WaitingComp, QosAckPackageType::PubComp) => QosFlowState::Done,
            _ => state,
        },
    }
}

/// An acknowledgement that arrives twice has the effect of arriving once.
pub proof fn lemma_duplicate_ack(qos: QoS, state: QosFlowState, ack: QosAckPackageType)
    ensures
        flow_after(qos, flow_after(qos, state, ack), ack) == flow_after(qos, state, ack),
{
}

} // verus!
