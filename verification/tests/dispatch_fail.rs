use anchor_lang::solana_program::account_info::AccountInfo;
use anchor_lang::solana_program::entrypoint::ProgramResult;
use anchor_lang::solana_program::instruction::Instruction;
use anchor_lang::solana_program::program_error::ProgramError;
use anchor_lang::solana_program::program_stubs::{set_syscall_stubs, SyscallStubs};
use anchor_lang::solana_program::pubkey::Pubkey;
use noop_wrapper::events::{wrap_application_data, EventError};
use noop_wrapper::noop::{dispatch, noop_program_id_bytes, wrap_application_data_v1, wrap_event};

/// Simulates a host on which the fixed event target cannot be invoked.
struct UnreachableTarget;

impl SyscallStubs for UnreachableTarget {
    fn sol_invoke_signed(
        &self,
        _instruction: &Instruction,
        _account_infos: &[AccountInfo],
        _signers_seeds: &[&[&[u8]]],
    ) -> ProgramResult {
        Err(ProgramError::Custom(1))
    }
}

#[test]
fn unreachable_target_aborts_with_dispatch_failure() {
    set_syscall_stubs(Box::new(UnreachableTarget));
    let key = Pubkey::new_from_array(noop_program_id_bytes());
    let owner = Pubkey::new_from_array([0u8; 32]);
    let mut lamports: u64 = 0;
    let mut account_data: Vec<u8> = vec![];
    let info = AccountInfo::new(
        &key, false, false, &mut lamports, &mut account_data, &owner, true, 0,
    );

    assert_eq!(dispatch(vec![1, 2, 3], &info), Err(EventError::DispatchFailure));

    let event = wrap_application_data(vec![5, 6]);
    assert_eq!(wrap_event(&event, &info), Err(EventError::DispatchFailure));

    assert_eq!(
        wrap_application_data_v1(vec![9], &info),
        Err(EventError::DispatchFailure)
    );
}
