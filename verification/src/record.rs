//! The two records of the address program. Both have the same shape: one
//! address field of 512 bytes, zero-padded.

use vstd::prelude::*;
use crate::wire::{array_from_slice, array_into_buffer, array_to_vec, decode, encode, LayoutError};
use crate::packing::ADDRESS_LEN;

verus! {

/// The payload of an address-update instruction: the address to store.
#[derive(Clone, Debug, PartialEq)]
pub struct InstructionData {
    pub address: [u8; 512],
}

/// The state that an address account keeps: the address stored in it.
#[derive(Debug)]
pub struct AddressSchema {
    pub address: [u8; 512],
}

impl View for InstructionData {
    type V = Seq<u8>;

    open spec fn view(&self) -> Seq<u8> {
        self.address@
    }
}

impl View for AddressSchema {
    type V = Seq<u8>;

    open spec fn view(&self) -> Seq<u8> {
        self.address@
    }
}

/// What a decoding returned, with the record replaced by its view.
pub open spec fn viewed<R: View<V = Seq<u8>>>(r: Result<R, LayoutError>) -> Result<
    Seq<u8>,
    LayoutError,
> {
    match r {
        Ok(record) => Ok(record@),
        Err(e) => Err(e),
    }
}

impl InstructionData {
    /// Decodes an instruction payload. The buffer must be exactly one record
    /// long: a shorter one and a longer one are both refused, and no partial
    /// record is ever returned.
    pub fn try_from_slice(v: &[u8]) -> (r: Result<InstructionData, LayoutError>)
        ensures
            viewed(r) == decode(v@),
    {
        match array_from_slice(v) {
            Ok(address) => Ok(InstructionData { address }),
            Err(_) => if v.len() < ADDRESS_LEN {
                Err(LayoutError::UnexpectedLength)
            } else {
                Err(LayoutError::NotAllBytesRead)
            },
        }
    }

    /// Encodes the instruction into a fresh buffer of exactly one record.
    pub fn try_to_vec(&self) -> (r: Result<Vec<u8>, LayoutError>)
        ensures
            r is Ok,
            r matches Ok(bytes) ==> bytes@ == encode(self@),
    {
        match array_to_vec(&self.address) {
            Ok(bytes) => Ok(bytes),
            Err(_) => Err(LayoutError::WriteZero),
        }
    }
}

impl AddressSchema {
    /// Decodes the state of an account from its whole storage region, which
    /// must be exactly one record long.
    pub fn try_from_slice(v: &[u8]) -> (r: Result<AddressSchema, LayoutError>)
        ensures
            viewed(r) == decode(v@),
    {
        match array_from_slice(v) {
            Ok(address) => Ok(AddressSchema { address }),
            Err(_) => if v.len() < ADDRESS_LEN {
                Err(LayoutError::UnexpectedLength)
            } else {
                Err(LayoutError::NotAllBytesRead)
            },
        }
    }

    /// Writes the encoded record over the front of `out`, in place. A buffer
    /// too short for the record is refused and left as it was.
    pub fn serialize(&self, out: &mut Vec<u8>) -> (r: Result<(), LayoutError>)
        ensures
            old(out)@.len() >= ADDRESS_LEN ==> {
                &&& r is Ok
                &&& final(out)@ == encode(self@) + old(out)@.skip(ADDRESS_LEN as int)
            },
            old(out)@.len() < ADDRESS_LEN ==> {
                &&& r == Err::<(), _>(LayoutError::WriteZero)
                &&& final(out)@ == old(out)@
            },
    {
        if out.len() < ADDRESS_LEN {
            return Err(LayoutError::WriteZero);
        }
        match array_into_buffer(&self.address, out) {
            Ok(()) => Ok(()),
            Err(_) => Err(LayoutError::WriteZero),
        }
    }
}

} // verus!
