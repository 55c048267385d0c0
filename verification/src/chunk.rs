//! The unit of streamed output: a reference-counted byte buffer of the HTTP
//! layer.
//!
//! The items in this file are trusted: the verifier takes their contracts as
//! given and does not look inside the buffer type.

use vstd::prelude::*;
use actix_web::web::Bytes;

verus! {

/// `actix_web::web::Bytes` (the `bytes` crate's `Bytes`): an immutable,
/// cheaply cloneable byte buffer. Opaque to the verifier.
#[verifier::external_type_specification]
#[verifier::external_body]
pub struct ExBytes(actix_web::web::Bytes);

/// The bytes that a chunk holds, in order: what it dereferences to as a
/// slice.
pub uninterp spec fn chunk_bytes(chunk: Bytes) -> Seq<u8>;

/// `Bytes::from(Vec<u8>)`: takes over the vector's buffer. The chunk holds
/// exactly the bytes that the vector held, in the same order.
#[verifier::external_body]
pub(crate) fn chunk_from_vec(bytes: Vec<u8>) -> (chunk: Bytes)
    ensures
        chunk_bytes(chunk) == bytes@,
{
    Bytes::from(bytes)
}

} // verus!
