use anchor_lang::prelude::Pubkey;
use anchor_lang::solana_program::system_instruction;
use anchor_lang::solana_program::system_program;
use bank_program::identity::Identity;
use bank_program::instruction::{AccountMeta, Instruction};
use bank_program::ledger::Transfer;

#[test]
fn transfer_instruction_is_the_system_transfer() {
    let from = Identity::new([3; 32]);
    let to = Identity::new([4; 32]);
    let ix = Transfer { from, to, amount: 500 }.instruction();
    assert_eq!(
        ix,
        Instruction {
            program_id: Identity::new([0; 32]),
            accounts: vec![
                AccountMeta { key: from, is_signer: true, is_writable: true },
                AccountMeta { key: to, is_signer: false, is_writable: true },
            ],
            data: vec![2, 0, 0, 0, 244, 1, 0, 0, 0, 0, 0, 0],
        }
    );
}

#[test]
fn transfer_instruction_carries_the_amount_little_endian() {
    let from = Identity::new([1; 32]);
    let to = Identity::new([2; 32]);
    let ix = Transfer { from, to, amount: 0x0102_0304_0506_0708 }.instruction();
    assert_eq!(ix.data, vec![2, 0, 0, 0, 8, 7, 6, 5, 4, 3, 2, 1]);
    let zero = Transfer { from, to, amount: 0 }.instruction();
    assert_eq!(zero.data, vec![2, 0, 0, 0, 0, 0, 0, 0, 0, 0, 0, 0]);
    let most = Transfer { from, to, amount: u64::MAX }.instruction();
    assert_eq!(most.data, vec![2, 0, 0, 0, 255, 255, 255, 255, 255, 255, 255, 255]);
}

#[test]
fn transfer_instruction_agrees_with_the_system_interface() {
    let from = Identity::new([9; 32]);
    let to = Identity::new([8; 32]);
    let ours = Transfer { from, to, amount: 77 }.instruction();
    let theirs = system_instruction::transfer(
        &Pubkey::new_from_array(from.bytes),
        &Pubkey::new_from_array(to.bytes),
        77,
    );
    assert_eq!(ours.program_id.bytes, system_program::ID.to_bytes());
    assert_eq!(ours.program_id.bytes, theirs.program_id.to_bytes());
    assert_eq!(ours.data, theirs.data);
    assert_eq!(ours.accounts.len(), theirs.accounts.len());
    for (a, b) in ours.accounts.iter().zip(theirs.accounts.iter()) {
        assert_eq!(a.key.bytes, b.pubkey.to_bytes());
        assert_eq!(a.is_signer, b.is_signer);
        assert_eq!(a.is_writable, b.is_writable);
    }
}
