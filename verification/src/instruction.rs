//! The instructions of the profile program, told apart by their tag byte.

use vstd::prelude::*;
use crate::error::ProgramError;

verus! {

/// The operations of the profile program. The set is closed: a payload names
/// one of these four or is refused.
#[derive(Clone, Copy, Debug, PartialEq, Eq, Structural)]
pub enum EcomInstructionData {
    /// Replace the stored address.
    UpdateAdddress,
    /// Set up the storage account for an address.
    InitializeAddressPDA,
    /// Set up the storage account for a user profile.
    InitializeUserProfilePDA,
    /// Replace the stored user information.
    UpdateUserInfo,
}

impl EcomInstructionData {
    /// The tag byte that stands for the operation on the wire.
    pub open spec fn tag(self) -> u8 {
        match self {
            EcomInstructionData::UpdateAdddress => 0,
            EcomInstructionData::InitializeAddressPDA => 1,
            EcomInstructionData::InitializeUserProfilePDA => 2,
            EcomInstructionData::UpdateUserInfo => 3,
        }
    }

    /// The operation that a tag byte stands for, where it stands for one.
    pub open spec fn from_tag(tag: u8) -> Option<EcomInstructionData> {
        if tag == 0 {
            Some(EcomInstructionData::UpdateAdddress)
        } else if tag == 1 {
            Some(EcomInstructionData::InitializeAddressPDA)
        } else if tag == 2 {
            Some(EcomInstructionData::InitializeUserProfilePDA)
        } else if tag == 3 {
            Some(EcomInstructionData::UpdateUserInfo)
        } else {
            None
        }
    }

    /// Reads the operation off the leading byte of a payload. The bytes 0 to
    /// 3 name the four operations, in the order of their declaration; every
    /// other byte is `InvalidInstructionData`.
    pub fn unpack(input: &u8) -> (r: Result<EcomInstructionData, ProgramError>)
        ensures
            r is Ok <==> *input <= 3,
            match Self::from_tag(*input) {
                Some(operation) => r == Ok::<_, ProgramError>(operation),
                None => r == Err::<EcomInstructionData, _>(ProgramError::InvalidInstructionData),
            },
    {
        match *input {
            0 => Ok(EcomInstructionData::UpdateAdddress),
            1 => Ok(EcomInstructionData::InitializeAddressPDA),
            2 => Ok(EcomInstructionData::InitializeUserProfilePDA),
            3 => Ok(EcomInstructionData::UpdateUserInfo),
            _ => Err(ProgramError::InvalidInstructionData),
        }
    }
}

/// The tag bytes and the operations correspond one to one: each operation is
/// what its own tag stands for, a byte that stands for an operation is that
/// operation's tag, and the bytes that stand for one are exactly 0 to 3.
pub proof fn lemma_tags_are_closed(tag: u8, operation: EcomInstructionData)
    ensures
        EcomInstructionData::from_tag(operation.tag()) == Some(operation),
        EcomInstructionData::from_tag(tag) == Some(operation) <==> operation.tag() == tag,
        EcomInstructionData::from_tag(tag) is Some <==> tag <= 3,
{
}

} // verus!
