//! Why an invocation fails, and what the host is told.

use vstd::prelude::*;
use crate::wire::LayoutError;

verus! {

/// The codes that the host understands. Every failure ends in one of them.
#[derive(Clone, Copy, Debug, PartialEq, Eq, Structural)]
pub enum ProgramError {
    /// The instruction payload does not have the expected layout, or its tag
    /// names no operation.
    InvalidInstructionData,
    /// The account may not be modified by this program in this invocation:
    /// another program owns it, or the authorization proof is missing.
    IncorrectProgramId,
    /// Fewer accounts were supplied than the instruction needs.
    NotEnoughAccountKeys,
    /// The storage region of the account does not decode to a record, for
    /// the reason given.
    BorshIoError(LayoutError),
}

/// What an invocation reports to the host.
pub type ProgramResult = Result<(), ProgramError>;

/// The cause of a refusal. Two of the causes share one code on the wire; here
/// they are kept apart, and `code` alone merges them.
#[derive(Clone, Copy, Debug, PartialEq, Eq, Structural)]
pub enum Rejection {
    /// The account list ended before the storage account was reached.
    NotEnoughAccounts,
    /// The storage account belongs to another program.
    ForeignOwner,
    /// The storage account does not carry the signer flag.
    MissingSigner,
    /// The storage region of the account is not exactly one record: it is
    /// too short, or bytes are left over.
    MalformedState(LayoutError),
}

impl Rejection {
    /// The code under which the host sees this cause.
    pub open spec fn spec_code(self) -> ProgramError {
        match self {
            Rejection::NotEnoughAccounts => ProgramError::NotEnoughAccountKeys,
            Rejection::ForeignOwner => ProgramError::IncorrectProgramId,
            Rejection::MissingSigner => ProgramError::IncorrectProgramId,
            Rejection::MalformedState(reason) => ProgramError::BorshIoError(reason),
        }
    }

    /// The code under which the host sees this cause. A foreign owner and a
    /// missing signer flag are both reported as `IncorrectProgramId`.
    #[verifier::when_used_as_spec(spec_code)]
    pub fn code(self) -> (code: ProgramError)
        ensures
            code == self.spec_code(),
    {
        match self {
            Rejection::NotEnoughAccounts => ProgramError::NotEnoughAccountKeys,
            Rejection::ForeignOwner => ProgramError::IncorrectProgramId,
            Rejection::MissingSigner => ProgramError::IncorrectProgramId,
            Rejection::MalformedState(reason) => ProgramError::BorshIoError(reason),
        }
    }
}

} // verus!
