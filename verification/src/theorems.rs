//! What holds of every invocation, stated over the models that the contracts
//! of `update_address` and `process_instruction` use.

use vstd::prelude::*;
use crate::account::AccountView;
use crate::error::{ProgramError, Rejection};
use crate::packing::{zero_padded, ADDRESS_LEN};
use crate::processor::{after_invocation, after_update, outcome, refusal, rewritten};
use crate::wire::{decode, encode};

verus! {

/// Encoding loses nothing: a record's bytes decode to the address field they
/// were made from.
pub proof fn lemma_decode_inverts_encode(address: Seq<u8>)
    requires
        address.len() == ADDRESS_LEN,
    ensures
        decode(encode(address)) == Ok::<_, crate::wire::LayoutError>(address),
{
}

/// An address comes back as it went in. Take an address of fewer than 512
/// bytes, pack it, and send the encoded record as an instruction. Wherever
/// the invocation succeeds, the first account then decodes to exactly those
/// bytes followed by zeros up to 512; and it succeeds wherever nothing
/// forbids the rewrite.
pub proof fn lemma_round_trip(address: Seq<u8>, program_id: Seq<u8>, accounts: Seq<AccountView>)
    requires
        address.len() < ADDRESS_LEN,
    ensures
        ({
            let payload = encode(zero_padded(address));
            let after = after_invocation(program_id, accounts, payload);
            &&& outcome(program_id, accounts, payload) is Ok <==> refusal(program_id, accounts)
                is None
            &&& outcome(program_id, accounts, payload) is Ok ==> decode(after[0].data) == Ok::<
                _,
                crate::wire::LayoutError,
            >(zero_padded(address))
            &&& forall|i: int|
                0 <= i < ADDRESS_LEN ==> zero_padded(address)[i] == if i < address.len() {
                    address[i]
                } else {
                    0u8
                }
        }),
{
}

/// An account owned by another program is never rewritten:
/// the update is refused for a foreign owner and the list stays as it was,
/// whatever address the instruction carries. At the entry point every
/// well-formed payload is answered with `IncorrectProgramId`, and no payload
/// at all changes the list.
pub proof fn lemma_ownership_gate(
    program_id: Seq<u8>,
    accounts: Seq<AccountView>,
    address: Seq<u8>,
    payload: Seq<u8>,
)
    requires
        accounts.len() > 0,
        accounts[0].owner != program_id,
    ensures
        refusal(program_id, accounts) == Some(Rejection::ForeignOwner),
        after_update(program_id, accounts, address) == accounts,
        after_invocation(program_id, accounts, payload) == accounts,
        decode(payload) is Ok ==> outcome(program_id, accounts, payload) == Err::<(), _>(
            ProgramError::IncorrectProgramId,
        ),
{
}

/// An account without the signer flag is never rewritten, be its owner right
/// or wrong: the update is refused under the code `IncorrectProgramId` and
/// the list stays as it was. Where the owner is right, the cause is the
/// missing flag.
pub proof fn lemma_signer_gate(
    program_id: Seq<u8>,
    accounts: Seq<AccountView>,
    address: Seq<u8>,
    payload: Seq<u8>,
)
    requires
        accounts.len() > 0,
        !accounts[0].is_signer,
    ensures
        refusal(program_id, accounts) matches Some(cause) && cause.spec_code()
            == ProgramError::IncorrectProgramId,
        accounts[0].owner == program_id ==> refusal(program_id, accounts) == Some(
            Rejection::MissingSigner,
        ),
        after_update(program_id, accounts, address) == accounts,
        after_invocation(program_id, accounts, payload) == accounts,
        decode(payload) is Ok ==> outcome(program_id, accounts, payload) == Err::<(), _>(
            ProgramError::IncorrectProgramId,
        ),
{
}

/// With no account in the list the update is refused for want of accounts,
/// and at the entry point every well-formed payload is answered with
/// `NotEnoughAccountKeys`. The list stays empty.
pub proof fn lemma_empty_account_list(
    program_id: Seq<u8>,
    accounts: Seq<AccountView>,
    address: Seq<u8>,
    payload: Seq<u8>,
)
    requires
        accounts.len() == 0,
    ensures
        refusal(program_id, accounts) == Some(Rejection::NotEnoughAccounts),
        after_update(program_id, accounts, address) == accounts,
        after_invocation(program_id, accounts, payload) == accounts,
        decode(payload) is Ok ==> outcome(program_id, accounts, payload) == Err::<(), _>(
            ProgramError::NotEnoughAccountKeys,
        ),
{
}

/// Sending the same payload a second time changes nothing: the host gets the
/// same answer, and the accounts stay as the first invocation left them.
pub proof fn lemma_invocation_is_idempotent(
    program_id: Seq<u8>,
    accounts: Seq<AccountView>,
    payload: Seq<u8>,
)
    ensures
        ({
            let once = after_invocation(program_id, accounts, payload);
            &&& after_invocation(program_id, once, payload) == once
            &&& outcome(program_id, once, payload) == outcome(program_id, accounts, payload)
        }),
{
    match decode(payload) {
        Ok(address) => lemma_update_is_idempotent(program_id, accounts, address),
        Err(_) => {},
    }
}

/// Applying the same update a second time changes nothing: the accounts stay
/// as the first update left them, and an update of a whole record that went
/// through goes through again.
pub proof fn lemma_update_is_idempotent(
    program_id: Seq<u8>,
    accounts: Seq<AccountView>,
    address: Seq<u8>,
)
    ensures
        ({
            let once = after_update(program_id, accounts, address);
            &&& after_update(program_id, once, address) == once
            &&& address.len() == ADDRESS_LEN ==> refusal(program_id, once) == refusal(
                program_id,
                accounts,
            )
        }),
{
    let once = after_update(program_id, accounts, address);
    if refusal(program_id, accounts) is None {
        assert(rewritten(once, address) =~= once);
    }
}

} // verus!
