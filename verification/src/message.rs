//! The typed representation of a VMB message: the TYPE byte as a record of
//! its eight bits, the four-byte header, the extended header with its
//! optional timestamp and address, and the message itself with its optional
//! payload.

use vstd::prelude::*;

use bytes::BytesMut;

use crate::bytebuf::buf_view;
use crate::types::{Bus, Id, Route};
use crate::types::{spec_bus_from_bit, spec_bus_to_bit};
use crate::types::{spec_id_from_byte, spec_id_to_byte};
use crate::types::{spec_route_from_bit, spec_route_to_bit};

verus! {

/// The TYPE byte of the header, bit 7 down to bit 0: bus, time, address,
/// route, payload, request, lock, unused.
#[derive(Debug, Copy, Clone, PartialEq, Eq, Structural)]
pub struct Type {
    /// Whether the message is for or from the bus itself.
    pub bus: Bus,
    /// If set, the header is followed by a four-byte timestamp.
    pub time: bool,
    /// If set, the header and the optional timestamp are followed by an
    /// eight-byte address; with the route bit clear, the receiver is
    /// determined from that address.
    pub address: bool,
    /// Whether the receiver is the device named by the SLOT byte.
    pub route: Route,
    /// If set, the extended header is followed by `8 * (SIZE + 1)` bytes of
    /// payload.
    pub payload: bool,
    /// If set, the sender expects an answer.
    pub request: bool,
    /// If set, the bus enters exclusive access until an unlocked message
    /// has been delivered.
    pub lock: bool,
    /// Reserved; written as 0 by the builder, preserved verbatim by the
    /// codec.
    pub unused: bool,
}

/// The record of bits that a given TYPE byte decodes to.
pub open spec fn spec_type_from_byte(byte: u8) -> Type {
    Type {
        bus: spec_bus_from_bit(byte & 0x80 != 0),
        time: byte & 0x40 != 0,
        address: byte & 0x20 != 0,
        route: spec_route_from_bit(byte & 0x10 != 0),
        payload: byte & 0x08 != 0,
        request: byte & 0x04 != 0,
        lock: byte & 0x02 != 0,
        unused: byte & 0x01 != 0,
    }
}

/// The byte that a given record of bits encodes to.
pub open spec fn spec_type_to_byte(t: Type) -> u8 {
    (if spec_bus_to_bit(t.bus) {
        0x80u8
    } else {
        0u8
    }) | (if t.time {
        0x40u8
    } else {
        0u8
    }) | (if t.address {
        0x20u8
    } else {
        0u8
    }) | (if spec_route_to_bit(t.route) {
        0x10u8
    } else {
        0u8
    }) | (if t.payload {
        0x08u8
    } else {
        0u8
    }) | (if t.request {
        0x04u8
    } else {
        0u8
    }) | (if t.lock {
        0x02u8
    } else {
        0u8
    }) | (if t.unused {
        0x01u8
    } else {
        0u8
    })
}

/// Every TYPE byte survives a decode followed by an encode, the reserved
/// bit included.
pub proof fn lemma_type_byte_roundtrip(byte: u8)
    ensures
        spec_type_to_byte(spec_type_from_byte(byte)) == byte,
{
    assert((if byte & 0x80 != 0 {
        0x80u8
    } else {
        0u8
    }) | (if byte & 0x40 != 0 {
        0x40u8
    } else {
        0u8
    }) | (if byte & 0x20 != 0 {
        0x20u8
    } else {
        0u8
    }) | (if byte & 0x10 != 0 {
        0x10u8
    } else {
        0u8
    }) | (if byte & 0x08 != 0 {
        0x08u8
    } else {
        0u8
    }) | (if byte & 0x04 != 0 {
        0x04u8
    } else {
        0u8
    }) | (if byte & 0x02 != 0 {
        0x02u8
    } else {
        0u8
    }) | (if byte & 0x01 != 0 {
        0x01u8
    } else {
        0u8
    }) == byte) by (bit_vector);
}

/// Every record of bits survives an encode followed by a decode.
pub proof fn lemma_type_roundtrip(t: Type)
    ensures
        spec_type_from_byte(spec_type_to_byte(t)) == t,
{
    let x7: u8 = if spec_bus_to_bit(t.bus) { 0x80 } else { 0 };
    let x6: u8 = if t.time { 0x40 } else { 0 };
    let x5: u8 = if t.address { 0x20 } else { 0 };
    let x4: u8 = if spec_route_to_bit(t.route) { 0x10 } else { 0 };
    let x3: u8 = if t.payload { 0x08 } else { 0 };
    let x2: u8 = if t.request { 0x04 } else { 0 };
    let x1: u8 = if t.lock { 0x02 } else { 0 };
    let x0: u8 = if t.unused { 0x01 } else { 0 };
    let b: u8 = x7 | x6 | x5 | x4 | x3 | x2 | x1 | x0;
    assert(((x7 == 0 || x7 == 0x80) && (x6 == 0 || x6 == 0x40) && (x5 == 0 || x5 == 0x20) && (x4
        == 0 || x4 == 0x10) && (x3 == 0 || x3 == 0x08) && (x2 == 0 || x2 == 0x04) && (x1 == 0 || x1
        == 0x02) && (x0 == 0 || x0 == 0x01)) ==> (((x7 | x6 | x5 | x4 | x3 | x2 | x1 | x0) & 0x80
        != 0) == (x7 == 0x80) && ((x7 | x6 | x5 | x4 | x3 | x2 | x1 | x0) & 0x40 != 0) == (x6
        == 0x40) && ((x7 | x6 | x5 | x4 | x3 | x2 | x1 | x0) & 0x20 != 0) == (x5 == 0x20) && ((x7
        | x6 | x5 | x4 | x3 | x2 | x1 | x0) & 0x10 != 0) == (x4 == 0x10) && ((x7 | x6 | x5 | x4
        | x3 | x2 | x1 | x0) & 0x08 != 0) == (x3 == 0x08) && ((x7 | x6 | x5 | x4 | x3 | x2 | x1
        | x0) & 0x04 != 0) == (x2 == 0x04) && ((x7 | x6 | x5 | x4 | x3 | x2 | x1 | x0) & 0x02 != 0)
        == (x1 == 0x02) && ((x7 | x6 | x5 | x4 | x3 | x2 | x1 | x0) & 0x01 != 0) == (x0 == 0x01)))
        by (bit_vector);
    assert(b & 0x80 != 0 <==> spec_bus_to_bit(t.bus));
    assert(b & 0x10 != 0 <==> spec_route_to_bit(t.route));
}

impl From<u8> for Type {
    fn from(byte: u8) -> Self {
        Self {
            bus: Bus::from(byte & 0x80 != 0),
            time: byte & 0x40 != 0,
            address: byte & 0x20 != 0,
            route: Route::from(byte & 0x10 != 0),
            payload: byte & 0x08 != 0,
            request: byte & 0x04 != 0,
            lock: byte & 0x02 != 0,
            unused: byte & 0x01 != 0,
        }
    }
}

impl vstd::std_specs::convert::FromSpecImpl<u8> for Type {
    open spec fn obeys_from_spec() -> bool {
        true
    }

    open spec fn from_spec(byte: u8) -> Self {
        spec_type_from_byte(byte)
    }
}

impl From<Type> for u8 {
    fn from(t: Type) -> Self {
        (if bool::from(t.bus) {
            0x80u8
        } else {
            0u8
        }) | (if t.time {
            0x40u8
        } else {
            0u8
        }) | (if t.address {
            0x20u8
        } else {
            0u8
        }) | (if bool::from(t.route) {
            0x10u8
        } else {
            0u8
        }) | (if t.payload {
            0x08u8
        } else {
            0u8
        }) | (if t.request {
            0x04u8
        } else {
            0u8
        }) | (if t.lock {
            0x02u8
        } else {
            0u8
        }) | (if t.unused {
            0x01u8
        } else {
            0u8
        })
    }
}

impl vstd::std_specs::convert::FromSpecImpl<Type> for u8 {
    open spec fn obeys_from_spec() -> bool {
        true
    }

    open spec fn from_spec(t: Type) -> Self {
        spec_type_to_byte(t)
    }
}

/// The four-byte header of a message.
#[derive(Debug, Copy, Clone, PartialEq, Eq, Structural)]
pub struct Header {
    pub typ: Type,
    /// The payload length in octas minus one, when the payload bit is set;
    /// the builder writes 0 otherwise.
    pub size: u8,
    /// The device slot, 0 to 255; interrupts restrict it to 0 to 63.
    pub slot: u8,
    pub id: Id,
}

/// The header that four wire bytes decode to.
pub open spec fn spec_header_from_bytes(b0: u8, b1: u8, b2: u8, b3: u8) -> Header {
    Header {
        typ: spec_type_from_byte(b0),
        size: b1,
        slot: b2,
        id: spec_id_from_byte(b3),
    }
}

/// The four wire bytes of a header: TYPE, SIZE, SLOT, ID.
pub open spec fn spec_header_to_bytes(h: Header) -> Seq<u8> {
    seq![spec_type_to_byte(h.typ), h.size, h.slot, spec_id_to_byte(h.id)]
}

impl From<[u8; 4]> for Header {
    fn from(header_bytes: [u8; 4]) -> Self {
        Header {
            typ: Type::from(header_bytes[0]),
            size: header_bytes[1],
            slot: header_bytes[2],
            id: Id::from(header_bytes[3]),
        }
    }
}

impl vstd::std_specs::convert::FromSpecImpl<[u8; 4]> for Header {
    open spec fn obeys_from_spec() -> bool {
        true
    }

    open spec fn from_spec(header_bytes: [u8; 4]) -> Self {
        spec_header_from_bytes(
            header_bytes[0],
            header_bytes[1],
            header_bytes[2],
            header_bytes[3],
        )
    }
}

/// The header together with the optional timestamp and the optional address.
#[derive(Debug, Copy, Clone, PartialEq, Eq)]
pub struct ExtendedHeader {
    pub header: Header,
    pub timestamp: Option<u32>,
    pub address: Option<u64>,
}

/// A VMB message.
#[derive(Debug, Clone, PartialEq, Eq)]
pub struct Message {
    pub extended_header: ExtendedHeader,
    pub payload: Option<BytesMut>,
}

/// The mathematical value of a message: its header and optional fields,
/// with the payload buffer replaced by the bytes it holds.
#[verifier::ext_equal]
pub struct MessageModel {
    pub header: Header,
    pub timestamp: Option<u32>,
    pub address: Option<u64>,
    pub payload: Option<Seq<u8>>,
}

impl View for Message {
    type V = MessageModel;

    open spec fn view(&self) -> MessageModel {
        MessageModel {
            header: self.extended_header.header,
            timestamp: self.extended_header.timestamp,
            address: self.extended_header.address,
            payload: match self.payload {
                Some(p) => Some(buf_view(p)),
                None => None,
            },
        }
    }
}

impl MessageModel {
    /// The timestamp, the address and the payload are each present exactly
    /// when the corresponding TYPE bit is set.
    pub open spec fn flags_match_fields(self) -> bool {
        &&& self.timestamp is Some <==> self.header.typ.time
        &&& self.address is Some <==> self.header.typ.address
        &&& self.payload is Some <==> self.header.typ.payload
    }

    /// A present payload holds exactly `8 * (SIZE + 1)` bytes: a positive
    /// number of whole octas, at most 256 of them.
    pub open spec fn payload_matches_size(self) -> bool {
        self.payload matches Some(p) ==> p.len() == 8 * (self.header.size + 1)
    }

    /// The ID tag is the one its own byte decodes to. The named variants
    /// all are; `Other(n)` is unless `n` is one of the 21 named codes, in
    /// which case the named variant stands for the same byte and encoding
    /// loses the distinction.
    pub open spec fn canonical_id(self) -> bool {
        spec_id_from_byte(spec_id_to_byte(self.header.id)) == self.header.id
    }

    /// What the codec needs of a message to take it around a round trip,
    /// and guarantees of every message it decodes: the optional fields
    /// agree with the TYPE bits, the payload agrees with the SIZE byte, and
    /// the ID tag is canonical.
    pub open spec fn wire_wf(self) -> bool {
        self.flags_match_fields() && self.payload_matches_size() && self.canonical_id()
    }

    /// What the builder maintains after every step: the optional fields
    /// agree with the TYPE bits, the payload agrees with the SIZE byte, and
    /// the SIZE byte is 0 as long as there is no payload. The ID tag is
    /// whatever the caller set, canonical or not.
    pub open spec fn builder_wf(self) -> bool {
        &&& self.flags_match_fields()
        &&& self.payload_matches_size()
        &&& self.payload is None ==> self.header.size == 0
    }

    /// Routing by other than the slot is only meaningful for bus messages
    /// and for messages whose ID byte is 0.
    pub open spec fn route_wf(self) -> bool {
        self.header.typ.route == Route::OtherRoute ==> spec_id_to_byte(self.header.id) == 0
            || self.header.typ.bus == Bus::BusMessage
    }

    /// An interrupt names an interrupt number, 0 to 63, in its SLOT byte.
    pub open spec fn interrupt_wf(self) -> bool {
        self.header.id == Id::Interrupt ==> self.header.slot <= 63
    }

    /// Everything the protocol asks of a finished message; every factory of
    /// the builder establishes this.
    pub open spec fn wf(self) -> bool {
        self.wire_wf() && self.builder_wf() && self.route_wf() && self.interrupt_wf()
    }
}

} // verus!
