//! Data of the local MQTT link: incoming publications, the state of the
//! client and the subscriptions it makes.

use vstd::prelude::*;
use crate::network::domain::{Network, NetworkManager, Topic};
use crate::system::domain::InternalEvent;

verus! {

/// A publication received from the broker: its payload and topic.
#[derive(Debug, Clone, PartialEq, Eq)]
pub struct PayloadTopic {
    pub payload: Vec<u8>,
    pub topic: String,
}

impl PayloadTopic {
    pub fn new(payload: Vec<u8>, topic: String) -> (p: Self)
        ensures
            p.payload@ == payload@,
            p.topic@ == topic@,
    {
        PayloadTopic { payload, topic }
    }
}

/// Stages of the MQTT client: connecting, working, failed.
#[derive(Debug, Clone, Copy, PartialEq, Eq, Structural)]
pub enum StateClient {
    Init,
    Work,
    Error,
}

/// Delivery guarantee of a subscription.
#[derive(Debug, Clone, Copy, PartialEq, Eq, Structural)]
pub enum QoS {
    AtMostOnce,
    AtLeastOnce,
    ExactlyOnce,
}

/// The delivery guarantee of a QoS level; unknown levels fall back to at most once.
pub open spec fn qos_of(q: u8) -> QoS {
    if q == 1 {
        QoS::AtLeastOnce
    } else if q == 2 {
        QoS::ExactlyOnce
    } else {
        QoS::AtMostOnce
    }
}

pub fn cast_qos(qos: &u8) -> (q: QoS)
    ensures
        q == qos_of(*qos),
{
    match *qos {
        0 => QoS::AtMostOnce,
        1 => QoS::AtLeastOnce,
        2 => QoS::ExactlyOnce,
        _ => QoS::AtMostOnce,
    }
}

/// The inbound topics of a network, in the order they are subscribed: data,
/// monitor, air alert, temperature alert, firmware result, handshake.
pub open spec fn inbound_topics(n: Network) -> Seq<(Seq<char>, u8)> {
    seq![
        n.topic_data@,
        n.topic_monitor@,
        n.topic_alert_air@,
        n.topic_alert_temp@,
        n.topic_hub_firmware_ok@,
        n.topic_balance_mode_handshake@,
    ]
}

/// The subscriptions for a sequence of networks.
pub open spec fn subscriptions_of(nets: Seq<Network>) -> Seq<(Seq<char>, QoS)>
    decreases nets.len(),
{
    if nets.len() == 0 {
        seq![]
    } else {
        subscriptions_of(nets.drop_last()) + inbound_topics(nets.last()).map_values(
            |t: (Seq<char>, u8)| (t.0, qos_of(t.1)),
        )
    }
}

fn push_sub(subs: &mut Vec<(String, QoS)>, t: &Topic)
    ensures
        final(subs)@.len() == old(subs)@.len() + 1,
        forall|i: int| 0 <= i < old(subs)@.len() ==> #[trigger] final(subs)@[i] == old(subs)@[i],
        final(subs)@.last().0@ == t@.0,
        final(subs)@.last().1 == qos_of(t@.1),
{
    let d = t.duplicate();
    subs.push((d.topic, cast_qos(&d.qos)));
}

/// The subscriptions for every registered network, as (topic, QoS) pairs.
pub fn collect_subscriptions(manager: &NetworkManager) -> (subs: Vec<(String, QoS)>)
    requires
        manager.wf(),
    ensures
        subs@.len() == subscriptions_of(manager.network_seq()).len(),
        forall|i: int|
            0 <= i < subs@.len() ==> (#[trigger] subs@[i]).0@ == subscriptions_of(manager.network_seq())[i].0
                && subs@[i].1 == subscriptions_of(manager.network_seq())[i].1,
{
    let mut subs: Vec<(String, QoS)> = Vec::new();
    let n = manager.network_count();
    proof {
        manager.lemma_network_seq();
    }
    for i in 0..n
        invariant
            manager.wf(),
            n == manager.network_seq().len(),
            n == manager.nets().len(),
            subs@.len() == subscriptions_of(manager.network_seq().take(i as int)).len(),
            forall|j: int|
                0 <= j < subs@.len() ==> (#[trigger] subs@[j]).0@ == subscriptions_of(
                    manager.network_seq().take(i as int),
                )[j].0 && subs@[j].1 == subscriptions_of(manager.network_seq().take(i as int))[j].1,
    {
        let net = manager.network_at(i);
        let ghost prev = subs@;
        let ghost seq_i = manager.network_seq().take(i as int);
        let ghost seq_n = manager.network_seq().take(i + 1);
        proof {
            assert(seq_n.drop_last() =~= seq_i);
            assert(seq_n.last() == manager.network_seq()[i as int]);
        }
        push_sub(&mut subs, &net.topic_data);
        push_sub(&mut subs, &net.topic_monitor);
        push_sub(&mut subs, &net.topic_alert_air);
        push_sub(&mut subs, &net.topic_alert_temp);
        push_sub(&mut subs, &net.topic_hub_firmware_ok);
        push_sub(&mut subs, &net.topic_balance_mode_handshake);
        proof {
            let add = inbound_topics(*net).map_values(|t: (Seq<char>, u8)| (t.0, qos_of(t.1)));
            assert(subscriptions_of(seq_n) == subscriptions_of(seq_i) + add);
            assert forall|j: int| 0 <= j < subs@.len() implies (#[trigger] subs@[j]).0@ == subscriptions_of(
                seq_n,
            )[j].0 && subs@[j].1 == subscriptions_of(seq_n)[j].1 by {
                if j < prev.len() {
                } else {
                    assert(add[j - prev.len()] == (inbound_topics(*net)[j - prev.len()].0, qos_of(
                        inbound_topics(*net)[j - prev.len()].1,
                    )));
                }
            }
        }
    }
    proof {
        assert(manager.network_seq().take(n as int) =~= manager.network_seq());
    }
    subs
}

/// What the MQTT client's loop observes: the outcome of creating the client,
/// a packet or a failure of the event loop, or the end of the pause after a failure.
#[derive(Debug, Clone, PartialEq, Eq)]
pub enum ClientInput {
    Created,
    CreateFailed,
    Publish(PayloadTopic),
    ConnAck,
    Disconnect,
    OtherPacket,
    PollFailed,
    Retry,
}

/// The client's next stage and the event it reports, if any.
#[derive(Debug, Clone, PartialEq, Eq)]
pub struct ClientStep {
    pub next: StateClient,
    pub event: Option<InternalEvent>,
}

/// The client's rule. Creating the client leads to work or to the failed
/// stage; while working, publications are reported as incoming messages, the
/// broker's acknowledgement as a connection and (when `reports_disconnect`)
/// its disconnection packet as a disconnection; a failed poll reports a
/// disconnection and leads to the failed stage, which retries from the start.
pub open spec fn client_rule(s: StateClient, i: ClientInput, reports_disconnect: bool) -> ClientStep {
    match (s, i) {
        (StateClient::Init, ClientInput::Created) => ClientStep { next: StateClient::Work, event: None },
        (StateClient::Init, ClientInput::CreateFailed) => ClientStep { next: StateClient::Error, event: None },
        (StateClient::Work, ClientInput::Publish(p)) => ClientStep {
            next: StateClient::Work,
            event: Some(InternalEvent::IncomingMessage(p)),
        },
        (StateClient::Work, ClientInput::ConnAck) => ClientStep {
            next: StateClient::Work,
            event: Some(InternalEvent::LocalConnected),
        },
        (StateClient::Work, ClientInput::Disconnect) => ClientStep {
            next: StateClient::Work,
            event: if reports_disconnect {
                Some(InternalEvent::LocalDisconnected)
            } else {
                None
            },
        },
        (StateClient::Work, ClientInput::PollFailed) => ClientStep {
            next: StateClient::Error,
            event: Some(InternalEvent::LocalDisconnected),
        },
        (StateClient::Error, ClientInput::Retry) => ClientStep { next: StateClient::Init, event: None },
        _ => ClientStep { next: s, event: None },
    }
}

/// One step of the MQTT client.
pub fn client_step(s: StateClient, i: ClientInput, reports_disconnect: bool) -> (r: ClientStep)
    ensures
        r == client_rule(s, i, reports_disconnect),
{
    match (s, i) {
        (StateClient::Init, ClientInput::Created) => ClientStep { next: StateClient::Work, event: None },
        (StateClient::Init, ClientInput::CreateFailed) => ClientStep { next: StateClient::Error, event: None },
        (StateClient::Work, ClientInput::Publish(p)) => ClientStep {
            next: StateClient::Work,
            event: Some(InternalEvent::IncomingMessage(p)),
        },
        (StateClient::Work, ClientInput::ConnAck) => ClientStep {
            next: StateClient::Work,
            event: Some(InternalEvent::LocalConnected),
        },
        (StateClient::Work, ClientInput::Disconnect) => ClientStep {
            next: StateClient::Work,
            event: if reports_disconnect {
                Some(InternalEvent::LocalDisconnected)
            } else {
                None
            },
        },
        (StateClient::Work, ClientInput::PollFailed) => ClientStep {
            next: StateClient::Error,
            event: Some(InternalEvent::LocalDisconnected),
        },
        (StateClient::Error, ClientInput::Retry) => ClientStep { next: StateClient::Init, event: None },
        _ => ClientStep { next: s, event: None },
    }
}

/// A client that fails comes back to the start after its pause, and reports
/// the disconnection when the failure happened while working.
pub proof fn law_client_recovers(reports_disconnect: bool)
    ensures
        client_rule(StateClient::Work, ClientInput::PollFailed, reports_disconnect) == (ClientStep {
            next: StateClient::Error,
            event: Some(InternalEvent::LocalDisconnected),
        }),
        client_rule(StateClient::Error, ClientInput::Retry, reports_disconnect).next == StateClient::Init,
        client_rule(StateClient::Init, ClientInput::CreateFailed, reports_disconnect).next == StateClient::Error,
{
}

} // verus!
