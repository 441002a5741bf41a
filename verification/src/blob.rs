//! The dump blob: `bytes::Bytes`, as far as this library reads it.
//!
//! Nothing in this file is proved. Each item states what the `bytes` crate does,
//! and the rest of the library is verified against these statements.

use bytes::Bytes;
use vstd::prelude::*;

verus! {

/// `bytes::Bytes`, an immutable run of bytes behind a reference count. Its fields
/// are hidden: what it holds is spoken of through [`blob_bytes`] alone.
#[verifier::external_type_specification]
#[verifier::external_body]
pub struct ExBytes(bytes::Bytes);

/// The bytes that a `Bytes` holds, first to last.
pub uninterp spec fn blob_bytes(blob: Bytes) -> Seq<u8>;

/// `Bytes::is_empty`: true exactly when the value holds no byte.
pub assume_specification[ bytes::Bytes::is_empty ](blob: &Bytes) -> (empty: bool)
    ensures
        empty == (blob_bytes(*blob).len() == 0),
;

/// `Bytes::clone`: a second handle on the same bytes.
pub assume_specification[ <bytes::Bytes as Clone>::clone ](blob: &Bytes) -> (copy: Bytes)
    ensures
        blob_bytes(copy) == blob_bytes(*blob),
;

/// `Bytes::from(Vec<u8>)`: takes the vector over, keeping its bytes and their order.
pub assume_specification[ <bytes::Bytes as From<Vec<u8>>>::from ](data: Vec<u8>) -> (blob: Bytes)
    ensures
        blob_bytes(blob) == data@,
;

} // verus!
