//! The wire format of a record, and the calls into `borsh` that read and
//! write it.
//!
//! A record is its 512-byte address field and nothing else: no header, no
//! length prefix, no version tag. The three functions at the end of this file
//! are the only places where `borsh` is called; their contracts are taken
//! from its source and are not proved here.

use vstd::prelude::*;
use crate::packing::ADDRESS_LEN;

verus! {

/// Why a buffer is not the encoding of a record, or cannot take one.
#[derive(Clone, Copy, Debug, PartialEq, Eq, Structural)]
pub enum LayoutError {
    /// The buffer ends before the record does.
    UnexpectedLength,
    /// Bytes are left over behind the record.
    NotAllBytesRead,
    /// The target has no room for the whole record.
    WriteZero,
}

/// The bytes that encode a record with the given address field.
pub open spec fn encode(address: Seq<u8>) -> Seq<u8> {
    address
}

/// The address field that a buffer encodes, where it encodes one: the buffer
/// must hold exactly one record, no byte less and no byte more.
pub open spec fn decode(bytes: Seq<u8>) -> Result<Seq<u8>, LayoutError> {
    if bytes.len() < ADDRESS_LEN {
        Err(LayoutError::UnexpectedLength)
    } else if bytes.len() > ADDRESS_LEN {
        Err(LayoutError::NotAllBytesRead)
    } else {
        Ok(bytes)
    }
}

/// `std::io::Error`, in which `borsh` reports its failures. It is carried out
/// of the calls below and never looked into.
#[verifier::external_type_specification]
#[verifier::external_body]
pub struct ExIoError(std::io::Error);

/// `borsh::BorshDeserialize::try_from_slice` for `[u8; 512]`. It reads 512
/// bytes from the front of the slice and fails if fewer are there, or if any
/// is left behind them; so it succeeds on slices of exactly 512 bytes, and
/// the array then holds those bytes in order.
#[verifier::external_body]
pub(crate) fn array_from_slice(bytes: &[u8]) -> (r: Result<[u8; 512], std::io::Error>)
    ensures
        r is Ok <==> bytes@.len() == ADDRESS_LEN,
        r matches Ok(array) ==> array@ == bytes@,
{
    borsh::BorshDeserialize::try_from_slice(bytes)
}

/// `borsh::BorshSerialize::serialize` for `[u8; 512]`, writing into the front
/// of `out`. It hands all 512 bytes to the writer in one `write_all`; a slice
/// with room for them takes them over its first 512 bytes, keeps what lies
/// behind, and reports success.
#[verifier::external_body]
pub(crate) fn array_into_buffer(array: &[u8; 512], out: &mut Vec<u8>) -> (r: Result<
    (),
    std::io::Error,
>)
    requires
        old(out)@.len() >= ADDRESS_LEN,
    ensures
        r is Ok,
        final(out)@ == array@ + old(out)@.skip(ADDRESS_LEN as int),
{
    borsh::BorshSerialize::serialize(array, &mut &mut out[..])
}

/// `borsh::BorshSerialize::try_to_vec` for `[u8; 512]`. It serializes into a
/// fresh vector, which takes every write; the vector then holds the 512 bytes
/// of the array in order.
#[verifier::external_body]
pub(crate) fn array_to_vec(array: &[u8; 512]) -> (r: Result<Vec<u8>, std::io::Error>)
    ensures
        r is Ok,
        r matches Ok(bytes) ==> bytes@ == array@,
{
    borsh::BorshSerialize::try_to_vec(array)
}

} // verus!
