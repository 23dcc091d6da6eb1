//! The entry point of the address program: decode the instruction, check the
//! storage account, rewrite its record in place.

use vstd::prelude::*;
use crate::account::{views, Account, AccountView};
use crate::error::{ProgramError, ProgramResult, Rejection};
use crate::pubkey::Pubkey;
use crate::record::{AddressSchema, InstructionData};
use crate::wire::{decode, encode};

verus! {

/// The first reason, in the order of the checks, for which the program with
/// the given identifier may not rewrite the first account of the list; `None`
/// where it may.
pub open spec fn refusal(program_id: Seq<u8>, accounts: Seq<AccountView>) -> Option<Rejection> {
    if accounts.len() == 0 {
        Some(Rejection::NotEnoughAccounts)
    } else if accounts[0].owner != program_id {
        Some(Rejection::ForeignOwner)
    } else if !accounts[0].is_signer {
        Some(Rejection::MissingSigner)
    } else {
        match decode(accounts[0].data) {
            Err(reason) => Some(Rejection::MalformedState(reason)),
            Ok(_) => None,
        }
    }
}

/// The account list after the record in the first account was replaced by
/// one with the given address. Nothing else changes: not the other fields of
/// that account, not the other accounts.
pub open spec fn rewritten(accounts: Seq<AccountView>, address: Seq<u8>) -> Seq<AccountView>
    recommends
        accounts.len() > 0,
{
    accounts.update(0, AccountView { data: encode(address), ..accounts[0] })
}

/// The account list that an address update leaves behind: rewritten where
/// nothing forbids it, untouched where anything does.
pub open spec fn after_update(
    program_id: Seq<u8>,
    accounts: Seq<AccountView>,
    address: Seq<u8>,
) -> Seq<AccountView> {
    if refusal(program_id, accounts) is None {
        rewritten(accounts, address)
    } else {
        accounts
    }
}

/// Applies a decoded address update to the first account of the list.
///
/// The checks run in a fixed order and the first that fails ends the call:
/// the list must not be empty, the account must be owned by `program_id`, it
/// must carry the signer flag, and its storage must hold exactly one record.
/// Only then is the address in that record replaced. A refused call leaves
/// every account as it was.
pub fn update_address(
    program_id: &Pubkey,
    accounts: &mut [Account],
    instruction: &InstructionData,
) -> (r: Result<(), Rejection>)
    ensures
        match refusal(program_id@, views(old(accounts)@)) {
            Some(cause) => r == Err::<(), _>(cause) && final(accounts)@ == old(accounts)@,
            None => r is Ok,
        },
        views(final(accounts)@) == after_update(program_id@, views(old(accounts)@), instruction@),
        final(accounts)@.len() == old(accounts)@.len(),
        forall|i: int| 1 <= i < old(accounts)@.len() ==> final(accounts)@[i] == old(accounts)@[i],
{
    let account = match accounts.first_mut() {
        Some(account) => account,
        None => {
            return Err(Rejection::NotEnoughAccounts);
        },
    };
    if account.owner != *program_id {
        return Err(Rejection::ForeignOwner);
    }
    if !account.is_signer {
        return Err(Rejection::MissingSigner);
    }
    let mut stored = match AddressSchema::try_from_slice(account.data.as_slice()) {
        Ok(stored) => stored,
        Err(reason) => {
            return Err(Rejection::MalformedState(reason));
        },
    };
    stored.address = instruction.address;
    match stored.serialize(&mut account.data) {
        Ok(()) => Ok(()),
        Err(reason) => Err(Rejection::MalformedState(reason)),
    }
}

/// What the host is told of an invocation. The payload is decoded before any
/// account is looked at, so a malformed payload is reported whatever the
/// accounts are.
pub open spec fn outcome(
    program_id: Seq<u8>,
    accounts: Seq<AccountView>,
    payload: Seq<u8>,
) -> ProgramResult {
    match decode(payload) {
        Err(_) => Err(ProgramError::InvalidInstructionData),
        Ok(_) => match refusal(program_id, accounts) {
            Some(cause) => Err(cause.spec_code()),
            None => Ok(()),
        },
    }
}

/// The account list that an invocation leaves behind.
pub open spec fn after_invocation(
    program_id: Seq<u8>,
    accounts: Seq<AccountView>,
    payload: Seq<u8>,
) -> Seq<AccountView> {
    match decode(payload) {
        Err(_) => accounts,
        Ok(address) => after_update(program_id, accounts, address),
    }
}

/// The entry point: decodes the payload as an address update and applies it
/// to the first account of the list.
///
/// A payload that is not exactly one record is `InvalidInstructionData`. The
/// refusals of `update_address` follow, each under its code; a foreign owner
/// and a missing signer flag both come out as `IncorrectProgramId`. Whenever
/// an error is returned, every account is as it was before the call.
pub fn process_instruction(
    program_id: &Pubkey,
    accounts: &mut [Account],
    instruction_data: &[u8],
) -> (r: ProgramResult)
    ensures
        r == outcome(program_id@, views(old(accounts)@), instruction_data@),
        views(final(accounts)@) == after_invocation(
            program_id@,
            views(old(accounts)@),
            instruction_data@,
        ),
        r is Err ==> final(accounts)@ == old(accounts)@,
        final(accounts)@.len() == old(accounts)@.len(),
        forall|i: int| 1 <= i < old(accounts)@.len() ==> final(accounts)@[i] == old(accounts)@[i],
{
    let instruction = match InstructionData::try_from_slice(instruction_data) {
        Ok(instruction) => instruction,
        Err(_) => {
            return Err(ProgramError::InvalidInstructionData);
        },
    };
    match update_address(program_id, accounts, &instruction) {
        Ok(()) => Ok(()),
        Err(cause) => Err(cause.code()),
    }
}

} // verus!
