//! The Protobuf boundary.
//!
//! Descriptor parsing, message lookup and message encoding are the
//! reflection library's work; the library carries descriptors opaquely and
//! frames the encoded message itself (see `framing`).

use vstd::prelude::*;

verus! {

#[verifier::external_type_specification]
#[verifier::external_body]
pub struct ExDescriptorPool(prost_reflect::DescriptorPool);

#[verifier::external_type_specification]
#[verifier::external_body]
pub struct ExMessageDescriptor(prost_reflect::MessageDescriptor);

/// Whether an encoded file descriptor set decodes into a pool holding a
/// message with exactly this full name; a function of the bytes and the
/// name alone.
pub uninterp spec fn descriptor_has_message(b: Seq<u8>, name: Seq<char>) -> bool;

/// Relies on prost_reflect::DescriptorPool::decode and
/// DescriptorPool::get_message_by_name: parses an encoded file descriptor
/// set and looks the named message type up in it, succeeding exactly when
/// the bytes decode and the pool holds the name.
#[verifier::external_body]
pub(crate) fn decode_and_find_message(bytes: &[u8], name: &str) -> (r: Result<
    prost_reflect::MessageDescriptor,
    String,
>)
    ensures
        r is Ok <==> descriptor_has_message(bytes@, name@),
{
    let pool = match prost_reflect::DescriptorPool::decode(bytes) {
        Ok(p) => p,
        Err(e) => {
            return Err(e.to_string());
        },
    };
    pool.get_message_by_name(name).ok_or_else(|| format!("unknown message name {name}"))
}

/// Relies on prost_reflect::DynamicMessage::deserialize for JSON values and
/// prost::Message::encode_to_vec: converts one JSON value to the message's
/// binary Protobuf encoding, with no header or marker of its own.
#[verifier::external_body]
pub(crate) fn protobuf_encode(
    message: &prost_reflect::MessageDescriptor,
    val: serde_json::Value,
) -> (r: Result<Vec<u8>, String>)
{
    let msg = match prost_reflect::DynamicMessage::deserialize(message.clone(), val) {
        Ok(m) => m,
        Err(e) => {
            return Err(e.to_string());
        },
    };
    Ok(prost::Message::encode_to_vec(&msg))
}

} // verus!
