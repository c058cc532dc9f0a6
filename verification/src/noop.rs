//! The side-channel dispatcher.
//!
//! The host runtime truncates its textual log channel at a fixed size quota,
//! but the call data handed to another program invoked within the same atomic
//! execution is never truncated. This module exploits that: it addresses an
//! instruction to a fixed no-op receiver program, puts the encoded envelope
//! verbatim into the instruction data, and executes the call-out
//! synchronously in the caller's own context. A failed call-out is terminal
//! for the whole enclosing unit of work; nothing is retried.

use vstd::prelude::*;

use crate::codec::{encode_event, representable};
use crate::events::{AccountCompressionEvent, EventError};
use anchor_lang::solana_program::account_info::AccountInfo;
use anchor_lang::solana_program::instruction::{AccountMeta, Instruction};
use anchor_lang::solana_program::program_error::ProgramError;
use anchor_lang::solana_program::pubkey::Pubkey;

verus! {

/// Marker for the no-op wrapper program that receives encoded envelopes as
/// its instruction data.
#[derive(Clone)]
pub struct Noop;

/// Solana account address: 32 bytes behind a private field, so it is declared
/// opaquely.
#[verifier::external_type_specification]
#[verifier::external_body]
pub struct ExPubkey(Pubkey);

/// Account metadata attached to an instruction: an address plus two flags,
/// all public fields.
#[verifier::external_type_specification]
pub struct ExAccountMeta(AccountMeta);

/// An instruction for the runtime to execute: the program to call, the
/// accounts it may touch, and opaque data bytes, all public fields.
#[verifier::external_type_specification]
pub struct ExInstruction(Instruction);

/// The error a failed call-out reports; this crate never reads it, only maps
/// it to [`EventError::DispatchFailure`].
#[verifier::external_type_specification]
#[verifier::external_body]
pub struct ExProgramError(ProgramError);

/// A loaded account handed to the running program; carried through to the
/// call-out untouched.
#[verifier::external_type_specification]
#[verifier::external_body]
pub struct ExAccountInfo<'a>(AccountInfo<'a>);

/// The fixed identity of the event target program, as its 32 address bytes
/// (base58 `noopb9bkMVfRPU8AsbpTUg8AQkHtKwMYZiFUjNRtMmV`). A process-wide
/// constant: never mutated, never looked up dynamically.
pub open spec fn noop_id_bytes() -> Seq<u8> {
    seq![
        11u8, 188, 15, 192, 187, 71, 202, 47, 116, 196, 17, 46, 148, 171, 19, 207, 163, 198, 52,
        229, 220, 23, 234, 203, 3, 205, 26, 35, 205, 126, 120, 124,
    ]
}

/// The event target's address bytes as an owned array.
pub fn noop_program_id_bytes() -> (r: [u8; 32])
    ensures
        r@ == noop_id_bytes(),
{
    let id: [u8; 32] = [
        11u8, 188, 15, 192, 187, 71, 202, 47, 116, 196, 17, 46, 148, 171, 19, 207, 163, 198, 52,
        229, 220, 23, 234, 203, 3, 205, 26, 35, 205, 126, 120, 124,
    ];
    proof {
        assert(id@ =~= noop_id_bytes());
    }
    id
}

/// The address value built from given bytes: `Pubkey::new_from_array` is a
/// function of its argument alone, so its result can be named.
pub uninterp spec fn pubkey_of(bytes: Seq<u8>) -> Pubkey;

/// Relies on `Pubkey::new_from_array` of solana-pubkey: wraps the given 32
/// bytes, unchanged, as an address value, depending on nothing else.
#[verifier::external_body]
fn pubkey_from_bytes(bytes: [u8; 32]) -> (r: Pubkey)
    ensures
        r == pubkey_of(bytes@),
{
    Pubkey::new_from_array(bytes)
}

/// Relies on the `Instruction` record of solana-instruction being a plain
/// struct of the three public fields its constructor-free literal sets.
#[verifier::external_body]
fn make_instruction(program_id: Pubkey, data: Vec<u8>) -> (r: Instruction)
    ensures
        r.program_id == program_id,
        r.accounts@.len() == 0,
        r.data@ == data@,
{
    Instruction { program_id, accounts: Vec::new(), data }
}

/// Builds the side-channel instruction: addressed to the fixed no-op target,
/// with no account list and the given bytes, verbatim, as its entire call
/// data.
pub fn instruction(data: Vec<u8>) -> (r: Instruction)
    ensures
        r.program_id == pubkey_of(noop_id_bytes()),
        r.accounts@.len() == 0,
        r.data@ == data@,
{
    let program_id = pubkey_from_bytes(noop_program_id_bytes());
    make_instruction(program_id, data)
}

/// Relies on `solana_program::program::invoke`: synchronously executes the
/// instruction in the caller's own atomic execution context, passing the
/// instruction data verbatim and untruncated. Whether the call-out completes
/// depends on the host environment, so nothing is promised of the outcome.
#[verifier::external_body]
fn invoke_instruction<'a>(ix: &Instruction, target: &AccountInfo<'a>) -> Result<(), ProgramError> {
    anchor_lang::solana_program::program::invoke(ix, core::slice::from_ref(target))
}

/// Hands already-encoded envelope bytes to the fixed event target through the
/// side channel. Success depends only on the call-out completing — never on
/// the size or content of the bytes — and a failed call-out is reported as
/// [`EventError::DispatchFailure`], terminal for the enclosing unit of work.
pub fn dispatch<'a>(bytes: Vec<u8>, noop_program: &AccountInfo<'a>) -> (r: Result<(), EventError>)
    ensures
        r matches Err(e) ==> e == EventError::DispatchFailure,
{
    let ix = instruction(bytes);
    match invoke_instruction(&ix, noop_program) {
        Ok(_) => Ok(()),
        Err(_) => Err(EventError::DispatchFailure),
    }
}

/// Encodes an event and dispatches the envelope through the side channel, in
/// one synchronous step.
///
/// Fails with [`EventError::SerializationFailure`] exactly on events the
/// envelope format cannot represent; on representable events the only
/// possible failure is a failed call-out.
pub fn wrap_event<'a>(
    event: &AccountCompressionEvent,
    noop_program: &AccountInfo<'a>,
) -> (r: Result<(), EventError>)
    ensures
        r == Err::<(), EventError>(EventError::SerializationFailure) <==> !representable(event@),
        representable(event@) ==> r is Ok || r == Err::<(), EventError>(
            EventError::DispatchFailure,
        ),
{
    let bytes = match encode_event(event) {
        Ok(bytes) => bytes,
        Err(e) => {
            return Err(e);
        },
    };
    dispatch(bytes, noop_program)
}

/// Wraps caller bytes in the most recent application-data format version and
/// delivers the encoded envelope to the fixed event target.
///
/// Payload size never threatens delivery: only a payload too long for the
/// 32-bit length prefix is refused (as a serialization failure), and
/// otherwise the only possible failure is a failed call-out.
pub fn wrap_application_data_v1<'a>(
    custom_data: Vec<u8>,
    noop_program: &AccountInfo<'a>,
) -> (r: Result<(), EventError>)
    ensures
        r == Err::<(), EventError>(EventError::SerializationFailure) <==> custom_data@.len()
            > u32::MAX,
        custom_data@.len() <= u32::MAX ==> r is Ok || r == Err::<(), EventError>(
            EventError::DispatchFailure,
        ),
{
    let event = crate::events::wrap_application_data(custom_data);
    wrap_event(&event, noop_program)
}

} // verus!
