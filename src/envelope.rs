use vstd::prelude::*;

use uuid::Uuid;

verus! {

/// Length of the request identifier that heads a framed request.
pub const UUID_BYTES: usize = 16;

/// Relies on uuid::Uuid::from_slice: it accepts exactly the slices of
/// sixteen bytes, errs on any other length, and keeps the bytes as given;
/// and on uuid::Uuid::into_bytes, which hands those bytes back.
#[verifier::external_body]
fn uuid_from_slice(b: &[u8]) -> (r: Option<[u8; 16]>)
    ensures
        r is Some <==> b@.len() == 16,
        r matches Some(a) ==> a@ == b@,
{
    Uuid::from_slice(b).ok().map(|u| u.into_bytes())
}

/// A framed request: the request identifier followed by the payload.
pub open spec fn framed(uuid: Seq<u8>, data: Seq<u8>) -> Seq<u8> {
    uuid + data
}

/// The request identifier at the head of a framed request.
pub open spec fn request_id_part(bytes: Seq<u8>) -> Seq<u8> {
    bytes.subrange(0, UUID_BYTES as int)
}

/// The payload that follows the request identifier.
pub open spec fn payload_part(bytes: Seq<u8>) -> Seq<u8> {
    bytes.subrange(UUID_BYTES as int, bytes.len() as int)
}

/// Reads the request identifier from the bytes of a request header: the
/// sixteen bytes as they stand; none unless there are exactly sixteen.
pub fn get_uuid_from_req(uuid: &[u8]) -> (r: Option<[u8; 16]>)
    ensures
        r is Some <==> uuid@.len() == UUID_BYTES,
        r matches Some(a) ==> a@ == uuid@,
{
    uuid_from_slice(uuid)
}

/// Frames a serialized request: the identifier from its header, then the
/// serialized bytes.
pub fn encode_req(uuid: &[u8], data: Vec<u8>) -> (r: Vec<u8>)
    ensures
        r@ == framed(uuid@, data@),
{
    let mut data = data;
    let mut data_with_uuid = vstd::slice::slice_to_vec(uuid);
    data_with_uuid.append(&mut data);
    data_with_uuid
}

/// Splits a framed request into a copy of its identifier and the payload
/// that follows.
pub fn decode_req(bytes: &[u8]) -> (r: (Vec<u8>, &[u8]))
    requires
        bytes@.len() >= UUID_BYTES,
    ensures
        r.0@ == request_id_part(bytes@),
        r.1@ == payload_part(bytes@),
{
    let uuid = vstd::slice::slice_to_vec(vstd::slice::slice_subrange(bytes, 0, UUID_BYTES));
    (uuid, vstd::slice::slice_subrange(bytes, UUID_BYTES, bytes.len()))
}

/// Decoding a framed request gives back its sixteen-byte identifier and its
/// payload.
pub proof fn lemma_decode_encode(uuid: Seq<u8>, data: Seq<u8>)
    requires
        uuid.len() == UUID_BYTES,
    ensures
        framed(uuid, data).len() >= UUID_BYTES,
        request_id_part(framed(uuid, data)) == uuid,
        payload_part(framed(uuid, data)) == data,
{
    assert(request_id_part(framed(uuid, data)) =~= uuid);
    assert(payload_part(framed(uuid, data)) =~= data);
}

} // verus!
