//! Registry wire framing.
//!
//! A framed payload starts with the magic byte `0x00`, then the resolved
//! schema ID as a big-endian signed 32-bit integer, then — for Protobuf
//! only — one message-index byte, then the schema-encoded payload.

use vstd::prelude::*;

verus! {

/// The magic byte that opens every framed payload.
pub const MAGIC_BYTE: u8 = 0x00;

/// The four big-endian bytes of a signed 32-bit schema ID.
pub open spec fn be32_bytes(id: i32) -> Seq<u8> {
    let u = id as u32;
    seq![(u / 0x1000000) as u8, ((u / 0x10000) % 0x100) as u8, ((u / 0x100) % 0x100) as u8, (
        u % 0x100) as u8]
}

/// The whole frame prefix: magic byte, schema ID, and — when given — the
/// Protobuf message-index byte.
pub open spec fn frame_prefix(schema_id: i32, message_id: Option<u8>) -> Seq<u8> {
    seq![MAGIC_BYTE] + be32_bytes(schema_id) + match message_id {
        Option::Some(m) => seq![m],
        Option::None => Seq::empty(),
    }
}

/// A payload framed for the registry wire format: prefix, then payload.
pub open spec fn framed(schema_id: i32, message_id: Option<u8>, payload: Seq<u8>) -> Seq<u8> {
    frame_prefix(schema_id, message_id) + payload
}

/// Byte 0 of every framed payload is the magic byte, bytes 1 to 4 are the
/// schema ID in big-endian order, and a Protobuf frame carries the message
/// index at byte 5, ahead of the payload.
pub proof fn lemma_framed_layout(schema_id: i32, message_id: Option<u8>, payload: Seq<u8>)
    ensures
        framed(schema_id, message_id, payload)[0] == MAGIC_BYTE,
        framed(schema_id, message_id, payload).subrange(1, 5) == be32_bytes(schema_id),
        message_id is Some ==> framed(schema_id, message_id, payload)[5] == message_id.unwrap(),
        message_id is Some ==> framed(schema_id, message_id, payload).skip(6) == payload,
        message_id is None ==> framed(schema_id, message_id, payload).skip(5) == payload,
        framed(schema_id, message_id, payload).len() == payload.len() + (
        if message_id is Some {
            6int
        } else {
            5int
        }),
{
    let f = framed(schema_id, message_id, payload);
    assert(f.subrange(1, 5) =~= be32_bytes(schema_id));
    match message_id {
        Option::Some(m) => {
            assert(f.skip(6) =~= payload);
        },
        Option::None => {
            assert(f.skip(5) =~= payload);
        },
    }
}

/// The four big-endian bytes of a schema ID, as executable code.
pub fn be32(id: i32) -> (r: [u8; 4])
    ensures
        r@ == be32_bytes(id),
{
    let u = id as u32;
    let r = [(u / 0x1000000) as u8, ((u / 0x10000) % 0x100) as u8, ((u / 0x100) % 0x100) as u8, (u
        % 0x100) as u8];
    proof {
        assert(r@ =~= be32_bytes(id));
    }
    r
}

/// Builds a framed payload: magic byte, big-endian schema ID, optional
/// message-index byte, then the payload itself.
pub fn frame_payload(schema_id: i32, message_id: Option<u8>, payload: Vec<u8>) -> (r: Vec<u8>)
    ensures
        r@ == framed(schema_id, message_id, payload@),
{
    let mut out: Vec<u8> = Vec::new();
    out.push(MAGIC_BYTE);
    let id_bytes = be32(schema_id);
    out.push(id_bytes[0]);
    out.push(id_bytes[1]);
    out.push(id_bytes[2]);
    out.push(id_bytes[3]);
    match message_id {
        Option::Some(m) => {
            out.push(m);
        },
        Option::None => {},
    }
    proof {
        assert(out@ =~= frame_prefix(schema_id, message_id));
    }
    let mut i: usize = 0;
    let ghost prefix = out@;
    proof {
        assert(prefix + payload@.take(0) =~= prefix);
    }
    while i < payload.len()
        invariant
            i <= payload@.len(),
            out@ == prefix + payload@.take(i as int),
        decreases payload@.len() - i,
    {
        out.push(payload[i]);
        proof {
            assert(prefix + payload@.take(i as int) + seq![payload@[i as int]] =~= prefix
                + payload@.take(i + 1));
        }
        i = i + 1;
    }
    proof {
        assert(payload@.take(payload@.len() as int) =~= payload@);
    }
    out
}

} // verus!
