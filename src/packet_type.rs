//! MQTT v5 control packet types: the kind of a packet, carried in the high
//! four bits of its first byte.

use vstd::prelude::*;

use crate::reason_code::ReasonCode;

verus! {

/// A control packet type, one variant per value from 1 (CONNECT) to 15
/// (AUTH).
#[derive(Debug, Clone, Copy, PartialEq, Eq, Structural)]
pub enum PacketType {
    Connect,
    Connack,
    Publish,
    PubAck,
    PubRec,
    PubRel,
    PubComp,
    Subscribe,
    SubAck,
    Unsubscribe,
    UnsubAck,
    PingReq,
    PingResp,
    Disconnect,
    Auth,
}

impl PacketType {
    /// The value that stands for this packet type on the wire.
    pub open spec fn byte(self) -> u8 {
        match self {
            PacketType::Connect => 1,
            PacketType::Connack => 2,
            PacketType::Publish => 3,
            PacketType::PubAck => 4,
            PacketType::PubRec => 5,
            PacketType::PubRel => 6,
            PacketType::PubComp => 7,
            PacketType::Subscribe => 8,
            PacketType::SubAck => 9,
            PacketType::Unsubscribe => 10,
            PacketType::UnsubAck => 11,
            PacketType::PingReq => 12,
            PacketType::PingResp => 13,
            PacketType::Disconnect => 14,
            PacketType::Auth => 15,
        }
    }

    /// The value that stands for this packet type on the wire.
    pub fn to_byte(&self) -> (r: u8)
        ensures
            r == self.byte(),
    {
        match self {
            PacketType::Connect => 1,
            PacketType::Connack => 2,
            PacketType::Publish => 3,
            PacketType::PubAck => 4,
            PacketType::PubRec => 5,
            PacketType::PubRel => 6,
            PacketType::PubComp => 7,
            PacketType::Subscribe => 8,
            PacketType::SubAck => 9,
            PacketType::Unsubscribe => 10,
            PacketType::UnsubAck => 11,
            PacketType::PingReq => 12,
            PacketType::PingResp => 13,
            PacketType::Disconnect => 14,
            PacketType::Auth => 15,
        }
    }
}

/// The values 1 to 15 map one-to-one onto the packet types.
pub proof fn lemma_packet_type_byte_one_to_one(a: PacketType, b: PacketType)
    ensures
        1 <= a.byte() <= 15,
        a.byte() == b.byte() ==> a == b,
{
}

impl TryFrom<u8> for PacketType {
    type Error = ReasonCode;

    /// The packet type whose value is `value`; fails with
    /// `ReasonCode::MalformedPacket` on 0 and on values above 15.
    fn try_from(value: u8) -> (r: Result<Self, Self::Error>)
        ensures
            r is Ok <==> 1 <= value <= 15,
            r matches Ok(p) ==> p.byte() == value,
            r matches Err(e) ==> e == ReasonCode::MalformedPacket,
    {
        let r = match value {
            1 => Ok(PacketType::Connect),
            2 => Ok(PacketType::Connack),
            3 => Ok(PacketType::Publish),
            4 => Ok(PacketType::PubAck),
            5 => Ok(PacketType::PubRec),
            6 => Ok(PacketType::PubRel),
            7 => Ok(PacketType::PubComp),
            8 => Ok(PacketType::Subscribe),
            9 => Ok(PacketType::SubAck),
            10 => Ok(PacketType::Unsubscribe),
            11 => Ok(PacketType::UnsubAck),
            12 => Ok(PacketType::PingReq),
            13 => Ok(PacketType::PingResp),
            14 => Ok(PacketType::Disconnect),
            15 => Ok(PacketType::Auth),
            _ => Err(ReasonCode::MalformedPacket),
        };
        proof {
            if r is Ok {
                assert(r->Ok_0.byte() == value);
                let p = choose|p: PacketType| p.byte() == value;
                lemma_packet_type_byte_one_to_one(p, r->Ok_0);
            }
        }
        r
    }
}

impl vstd::std_specs::convert::TryFromSpecImpl<u8> for PacketType {
    open spec fn obeys_try_from_spec() -> bool {
        true
    }

    /// The packet type whose value is `v`, if there is one.
    open spec fn try_from_spec(v: u8) -> Result<Self, ReasonCode> {
        if 1 <= v <= 15 {
            Ok(choose|p: PacketType| p.byte() == v)
        } else {
            Err(ReasonCode::MalformedPacket)
        }
    }
}

} // verus!
