//! The streaming codec: an encoder that appends one frame per message to a
//! growable byte buffer, and a decoder that removes exactly one complete
//! frame from the front of such a buffer or, given an incomplete frame,
//! leaves the buffer untouched so that more bytes can be appended and the
//! call retried. The codec keeps no state of its own between calls; all
//! in-flight bytes live in the caller's buffer.

use vstd::prelude::*;

use bytes::BytesMut;

use crate::bytebuf::{
    buf_advance, buf_get, buf_len, buf_put_all, buf_put_u32, buf_put_u64, buf_put_u8, buf_read_u32_be,
    buf_read_u64_be, buf_reserve, buf_split_to, buf_view, spec_u32_from_be, spec_u32_to_be,
    spec_u64_from_be, spec_u64_to_be,
};
use crate::bytebuf::{
    lemma_u32_be_bytes_roundtrip, lemma_u32_be_roundtrip, lemma_u64_be_bytes_roundtrip,
    lemma_u64_be_roundtrip,
};
use crate::constants::MIN_MESSAGE_SIZE;
use crate::message::{
    lemma_type_byte_roundtrip, lemma_type_roundtrip, spec_header_from_bytes, spec_header_to_bytes, spec_type_from_byte,
    spec_type_to_byte, ExtendedHeader, Header, Message, MessageModel,
};

verus! {

/// The bytes of an optional timestamp: four big-endian bytes, or none.
pub open spec fn spec_timestamp_bytes(timestamp: Option<u32>) -> Seq<u8> {
    match timestamp {
        Some(ts) => spec_u32_to_be(ts),
        None => Seq::<u8>::empty(),
    }
}

/// The bytes of an optional address: eight big-endian bytes, or none.
pub open spec fn spec_address_bytes(address: Option<u64>) -> Seq<u8> {
    match address {
        Some(a) => spec_u64_to_be(a),
        None => Seq::<u8>::empty(),
    }
}

/// The bytes of an optional payload: the payload itself, or none.
pub open spec fn spec_payload_bytes(payload: Option<Seq<u8>>) -> Seq<u8> {
    match payload {
        Some(p) => p,
        None => Seq::<u8>::empty(),
    }
}

/// The frame of a message: the four header bytes, then the timestamp, the
/// address and the payload, each present exactly when the message carries
/// it.
pub open spec fn spec_encode(m: MessageModel) -> Seq<u8> {
    spec_header_to_bytes(m.header) + spec_timestamp_bytes(m.timestamp) + spec_address_bytes(
        m.address,
    ) + spec_payload_bytes(m.payload)
}

/// The length of the frame that begins with these two header bytes: the
/// TYPE byte tells which fields follow, and the SIZE byte how long the
/// payload is.
pub open spec fn spec_frame_len(type_byte: u8, size: u8) -> int {
    let t = spec_type_from_byte(type_byte);
    4 + (if t.time {
        4int
    } else {
        0int
    }) + (if t.address {
        8int
    } else {
        0int
    }) + (if t.payload {
        8 * (size as int + 1)
    } else {
        0int
    })
}

/// Whether the buffer begins with a complete frame.
pub open spec fn spec_has_frame(s: Seq<u8>) -> bool {
    s.len() >= 4 && s.len() >= spec_frame_len(s[0], s[1])
}

/// The message whose frame the buffer begins with. Decoding is total: any
/// four header bytes are a valid header, so this is meaningful whenever
/// the frame is complete.
pub open spec fn spec_parse(s: Seq<u8>) -> MessageModel
    recommends
        spec_has_frame(s),
{
    let t = spec_type_from_byte(s[0]);
    let addr_off = 4 + (if t.time {
        4int
    } else {
        0int
    });
    let payload_off = addr_off + (if t.address {
        8int
    } else {
        0int
    });
    MessageModel {
        header: spec_header_from_bytes(s[0], s[1], s[2], s[3]),
        timestamp: if t.time {
            Some(spec_u32_from_be(s[4], s[5], s[6], s[7]))
        } else {
            None
        },
        address: if t.address {
            Some(
                spec_u64_from_be(
                    s[addr_off],
                    s[addr_off + 1],
                    s[addr_off + 2],
                    s[addr_off + 3],
                    s[addr_off + 4],
                    s[addr_off + 5],
                    s[addr_off + 6],
                    s[addr_off + 7],
                ),
            )
        } else {
            None
        },
        payload: if t.payload {
            Some(s.subrange(payload_off, payload_off + 8 * (s[1] as int + 1)))
        } else {
            None
        },
    }
}

/// The VMB codec. It owns nothing: encode and decode borrow the caller's
/// buffer for the duration of one call.
#[derive(Copy, Clone, Debug)]
pub struct VmbCodec {}

impl VmbCodec {
    /// Appends the frame of `msg` to the outbound buffer. Encoding never
    /// fails; the one bound is the machine's, that the buffer must still
    /// fit in memory afterwards.
    pub fn encode(&self, msg: Message, buf: &mut BytesMut)
        requires
            buf_view(*old(buf)).len() + spec_encode(msg@).len() <= usize::MAX,
        ensures
            buf_view(*final(buf)) == buf_view(*old(buf)) + spec_encode(msg@),
    {
        buf_reserve(buf, MIN_MESSAGE_SIZE as usize);
        buf_put_u8(buf, u8::from(msg.extended_header.header.typ));
        buf_put_u8(buf, msg.extended_header.header.size);
        buf_put_u8(buf, msg.extended_header.header.slot);
        buf_put_u8(buf, u8::from(msg.extended_header.header.id));
        proof {
            assert(buf_view(*buf) =~= buf_view(*old(buf)) + spec_header_to_bytes(
                msg@.header,
            ));
        }
        if let Some(timestamp) = msg.extended_header.timestamp {
            buf_put_u32(buf, timestamp);
        }
        if let Some(address) = msg.extended_header.address {
            buf_put_u64(buf, address);
        }
        if let Some(payload) = &msg.payload {
            buf_put_all(buf, payload);
        }
        proof {
            assert(buf_view(*buf) =~= buf_view(*old(buf)) + spec_encode(msg@));
        }
    }

    /// Removes exactly one complete frame from the front of the inbound
    /// buffer and returns its message, or returns nothing and leaves the
    /// buffer untouched when the frame is still incomplete, so that the
    /// transport can append more bytes and the call be retried.
    pub fn decode(&self, src: &mut BytesMut) -> (r: Option<Message>)
        ensures
            ({
                let s = buf_view(*old(src));
                &&& r is Some <==> spec_has_frame(s)
                &&& spec_has_frame(s) ==> buf_view(*final(src)) == s.skip(
                    spec_frame_len(s[0], s[1]),
                )
                &&& !spec_has_frame(s) ==> buf_view(*final(src)) == s
                &&& r matches Some(m) ==> m@ == spec_parse(s) && m@.wire_wf()
            }),
    {
        let ghost s = buf_view(*old(src));
        let len = buf_len(src);
        if len < MIN_MESSAGE_SIZE as usize {
            // Reserve enough bytes so we get a whole header next time.
            buf_reserve(src, MIN_MESSAGE_SIZE as usize - len);
            return None;
        }
        let header = Header::from(
            [buf_get(src, 0), buf_get(src, 1), buf_get(src, 2), buf_get(src, 3)],
        );
        let payload_size: usize = if header.typ.payload {
            (header.size as usize + 1) * 8
        } else {
            0
        };
        let frame_len: usize = 4 + (if header.typ.time {
            4
        } else {
            0
        }) + (if header.typ.address {
            8
        } else {
            0
        }) + payload_size;
        proof {
            assert(frame_len == spec_frame_len(s[0], s[1]));
        }
        if len < frame_len {
            // Reserve enough bytes so we get the rest of this frame next
            // time.
            buf_reserve(src, frame_len - len);
            return None;
        }
        buf_advance(src, 4);
        let timestamp = if header.typ.time {
            let ts = buf_read_u32_be(src, 0);
            buf_advance(src, 4);
            Some(ts)
        } else {
            None
        };
        let address = if header.typ.address {
            let a = buf_read_u64_be(src, 0);
            buf_advance(src, 8);
            Some(a)
        } else {
            None
        };
        let payload = if header.typ.payload {
            Some(buf_split_to(src, payload_size))
        } else {
            None
        };
        proof {
            assert(buf_view(*src) =~= s.skip(spec_frame_len(s[0], s[1])));
        }
        let remaining = buf_len(src);
        if remaining < MIN_MESSAGE_SIZE as usize {
            // Reserve enough bytes so we get the next header instantly.
            buf_reserve(src, MIN_MESSAGE_SIZE as usize - remaining);
        }
        let msg = Message {
            extended_header: ExtendedHeader { header, timestamp, address },
            payload,
        };
        proof {
            assert(msg@ =~= spec_parse(s));
        }
        Some(msg)
    }
}

/// The frame of a well-formed message, followed by anything at all, parses
/// back to exactly that message, and consuming the frame leaves exactly
/// what followed. This is the round trip behind every law of the codec.
pub proof fn lemma_encode_parse(m: MessageModel, rest: Seq<u8>)
    requires
        m.wire_wf(),
    ensures
        ({
            let e = spec_encode(m);
            let s = e + rest;
            &&& e.len() == spec_frame_len(e[0], e[1])
            &&& spec_has_frame(s)
            &&& spec_parse(s) == m
            &&& s.skip(spec_frame_len(s[0], s[1])) == rest
        }),
{
    let e = spec_encode(m);
    let s = e + rest;
    let t = m.header.typ;
    let hdr = spec_header_to_bytes(m.header);
    let tsb = spec_timestamp_bytes(m.timestamp);
    let adb = spec_address_bytes(m.address);
    let plb = spec_payload_bytes(m.payload);
    assert(s[0] == spec_type_to_byte(t) && s[1] == m.header.size && s[2] == m.header.slot && s[3]
        == crate::types::spec_id_to_byte(m.header.id));
    lemma_type_roundtrip(t);
    let addr_off = 4 + (if t.time {
        4int
    } else {
        0int
    });
    let payload_off = addr_off + (if t.address {
        8int
    } else {
        0int
    });
    assert(tsb.len() == addr_off - 4 && adb.len() == payload_off - addr_off);
    assert(e.len() == spec_frame_len(e[0], e[1]));
    if m.timestamp is Some {
        let ts = m.timestamp->0;
        lemma_u32_be_roundtrip(ts);
        assert(s[4] == tsb[0] && s[5] == tsb[1] && s[6] == tsb[2] && s[7] == tsb[3]);
        assert(spec_parse(s).timestamp == Some(ts));
    }
    if m.address is Some {
        let a = m.address->0;
        lemma_u64_be_roundtrip(a);
        assert(s[addr_off] == adb[0] && s[addr_off + 1] == adb[1] && s[addr_off + 2] == adb[2]
            && s[addr_off + 3] == adb[3] && s[addr_off + 4] == adb[4] && s[addr_off + 5] == adb[5]
            && s[addr_off + 6] == adb[6] && s[addr_off + 7] == adb[7]);
        assert(spec_parse(s).address == Some(a));
    }
    if m.payload is Some {
        let p = m.payload->0;
        assert(s.subrange(payload_off, payload_off + 8 * (m.header.size as int + 1)) =~= p);
    }
    assert(spec_parse(s) =~= m);
    assert(s.skip(spec_frame_len(s[0], s[1])) =~= rest);
}

/// The round trip itself: decoding the frame of a well-formed message
/// yields that message back and empties the buffer.
pub proof fn lemma_round_trip(m: MessageModel)
    requires
        m.wire_wf(),
    ensures
        spec_has_frame(spec_encode(m)),
        spec_parse(spec_encode(m)) == m,
        spec_encode(m).skip(spec_frame_len(spec_encode(m)[0], spec_encode(m)[1])) == Seq::<
            u8,
        >::empty(),
{
    lemma_encode_parse(m, Seq::<u8>::empty());
    assert(spec_encode(m) + Seq::<u8>::empty() =~= spec_encode(m));
}

/// Partial-read safety: no proper prefix of a frame is itself a complete
/// frame, so a decoder fed one returns nothing and, by the decode
/// contract, consumes nothing.
pub proof fn lemma_prefix_incomplete(m: MessageModel, n: int)
    requires
        m.wire_wf(),
        0 <= n < spec_encode(m).len(),
    ensures
        !spec_has_frame(spec_encode(m).take(n)),
{
    lemma_encode_parse(m, Seq::<u8>::empty());
    let e = spec_encode(m);
    let p = e.take(n);
    if n >= 4 {
        assert(p[0] == e[0] && p[1] == e[1]);
    }
}

/// The concatenated frames of a sequence of messages.
pub open spec fn spec_encode_all(ms: Seq<MessageModel>) -> Seq<u8>
    decreases ms.len(),
{
    if ms.len() == 0 {
        Seq::<u8>::empty()
    } else {
        spec_encode(ms[0]) + spec_encode_all(ms.skip(1))
    }
}

/// Streaming order: a buffer holding the concatenated frames of
/// well-formed messages decodes to the first of them and leaves exactly
/// the frames of the rest, so repeated decoding yields the messages in
/// the order they were encoded, and then reports an incomplete frame.
pub proof fn lemma_stream_decodes_in_order(ms: Seq<MessageModel>)
    requires
        forall|i: int| 0 <= i < ms.len() ==> ms[i].wire_wf(),
    ensures
        ms.len() == 0 ==> !spec_has_frame(spec_encode_all(ms)),
        ms.len() > 0 ==> ({
            let s = spec_encode_all(ms);
            &&& spec_has_frame(s)
            &&& spec_parse(s) == ms[0]
            &&& s.skip(spec_frame_len(s[0], s[1])) == spec_encode_all(ms.skip(1))
        }),
{
    if ms.len() > 0 {
        assert(ms[0].wire_wf());
        lemma_encode_parse(ms[0], spec_encode_all(ms.skip(1)));
    }
}

/// The other half of chunking safety: as long as the buffer holds less
/// than the first frame of the stream, it holds no frame at all, so the
/// decoder waits without consuming anything.
pub proof fn lemma_stream_prefix_incomplete(ms: Seq<MessageModel>, n: int)
    requires
        forall|i: int| 0 <= i < ms.len() ==> ms[i].wire_wf(),
        ms.len() > 0,
        0 <= n < spec_encode(ms[0]).len(),
    ensures
        !spec_has_frame(spec_encode_all(ms).take(n)),
{
    lemma_prefix_incomplete(ms[0], n);
    assert(spec_encode_all(ms).take(n) =~= spec_encode(ms[0]).take(n));
}

/// The opposite round trip: re-encoding a decoded message reproduces its
/// frame byte for byte, the SIZE byte and the reserved TYPE bit included,
/// whatever the four header bytes were.
pub proof fn lemma_parse_encode(s: Seq<u8>)
    requires
        spec_has_frame(s),
    ensures
        spec_encode(spec_parse(s)) == s.take(spec_frame_len(s[0], s[1])),
{
    let m = spec_parse(s);
    let t = spec_type_from_byte(s[0]);
    lemma_type_byte_roundtrip(s[0]);
    crate::types::lemma_id_byte_roundtrip(s[3]);
    if t.time {
        lemma_u32_be_bytes_roundtrip(s[4], s[5], s[6], s[7]);
    }
    let addr_off = 4 + (if t.time {
        4int
    } else {
        0int
    });
    if t.address {
        lemma_u64_be_bytes_roundtrip(
            s[addr_off],
            s[addr_off + 1],
            s[addr_off + 2],
            s[addr_off + 3],
            s[addr_off + 4],
            s[addr_off + 5],
            s[addr_off + 6],
            s[addr_off + 7],
        );
    }
    assert(spec_encode(m) =~= s.take(spec_frame_len(s[0], s[1])));
}

} // verus!
