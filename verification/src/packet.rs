//! What the sensor tasks hand to the uplink, and the MQTT messages that the
//! uplink publishes for it.

use vstd::prelude::*;

use crate::text::{
    fire_payload, fire_text, humidity_payload, humidity_text, temperature_payload,
    temperature_text,
};

verus! {

/// A packet on the queue between the sensor tasks and the uplink: a DHT11
/// reading (temperature in degrees Celsius, relative humidity in percent), or
/// the flame sensor's verdict.
#[derive(Clone, Copy, Debug, PartialEq, Eq, Structural)]
pub enum PubPacket {
    Temp(i8, u8),
    Other(bool),
}

/// MQTT quality of service.
#[derive(Clone, Copy, Debug, PartialEq, Eq, Structural)]
pub enum QoS {
    AtMostOnce,
    AtLeastOnce,
    ExactlyOnce,
}

/// The topic that every message is published to.
pub const TOPIC: &'static str = "esp32/shazbot/test";

/// One MQTT publish request.
#[derive(Debug)]
pub struct Publication {
    pub topic: &'static str,
    pub payload: Vec<u8>,
    pub qos: QoS,
    pub retain: bool,
}

/// A publish request as its topic text, payload bytes, quality of service and
/// retain flag.
pub struct PublicationView {
    pub topic: Seq<char>,
    pub payload: Seq<u8>,
    pub qos: QoS,
    pub retain: bool,
}

impl View for Publication {
    type V = PublicationView;

    open spec fn view(&self) -> PublicationView {
        PublicationView {
            topic: self.topic@,
            payload: self.payload@,
            qos: self.qos,
            retain: self.retain,
        }
    }
}

/// The payloads published for a packet, in the order they are sent: a reading
/// gives its temperature message and then its humidity message; a flame
/// verdict gives `FIRE` when a flame was seen and nothing otherwise.
pub open spec fn payloads(p: PubPacket) -> Seq<Seq<u8>> {
    match p {
        PubPacket::Temp(t, h) => seq![temperature_text(t as int), humidity_text(h as int)],
        PubPacket::Other(flame) => if flame {
            seq![fire_text()]
        } else {
            seq![]
        },
    }
}

/// The publish request that carries `payload`: on [`TOPIC`], at most once,
/// retained by the broker.
pub open spec fn message(payload: Seq<u8>) -> PublicationView {
    PublicationView { topic: TOPIC@, payload, qos: QoS::AtMostOnce, retain: true }
}

/// The publish requests for a packet, in order.
pub open spec fn messages(p: PubPacket) -> Seq<PublicationView> {
    payloads(p).map_values(|payload: Seq<u8>| message(payload))
}

/// The views of a sequence of publish requests.
pub open spec fn views(s: Seq<Publication>) -> Seq<PublicationView> {
    s.map_values(|m: Publication| m@)
}

/// How many messages the uplink publishes for `packet`.
pub fn message_count(packet: &PubPacket) -> (n: usize)
    ensures
        n == payloads(*packet).len(),
{
    match packet {
        PubPacket::Temp(_, _) => 2,
        PubPacket::Other(flame) => if *flame {
            1
        } else {
            0
        },
    }
}

/// The `index`-th message published for `packet`.
pub fn publication_at(packet: &PubPacket, index: usize) -> (m: Publication)
    requires
        index < payloads(*packet).len(),
    ensures
        m@ == messages(*packet)[index as int],
{
    let payload = match packet {
        PubPacket::Temp(t, h) => if index == 0 {
            temperature_payload(*t)
        } else {
            humidity_payload(*h)
        },
        PubPacket::Other(_) => fire_payload(),
    };
    Publication { topic: TOPIC, payload, qos: QoS::AtMostOnce, retain: true }
}

/// All the messages published for `packet`, in the order they are sent.
pub fn publications(packet: &PubPacket) -> (r: Vec<Publication>)
    ensures
        views(r@) == messages(*packet),
{
    let n = message_count(packet);
    let mut r: Vec<Publication> = Vec::new();
    let mut i: usize = 0;
    while i < n
        invariant
            n == payloads(*packet).len(),
            i <= n,
            views(r@) == messages(*packet).take(i as int),
        decreases n - i,
    {
        let m = publication_at(packet, i);
        let ghost before = r@;
        r.push(m);
        proof {
            assert(views(before).len() == i);
            assert(views(r@)[i as int] == r@[i as int]@);
            assert forall|j: int| 0 <= j < i + 1 implies #[trigger] views(r@)[j] == messages(
                *packet,
            ).take(i + 1)[j] by {
                if j < i {
                    assert(views(before)[j] == messages(*packet).take(i as int)[j]);
                }
            }
            assert(views(r@) =~= messages(*packet).take(i + 1));
        }
        i = i + 1;
    }
    assert(messages(*packet).take(n as int) =~= messages(*packet));
    r
}

} // verus!
