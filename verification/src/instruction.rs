use crate::identity::Identity;
use crate::ledger::Transfer;
use anchor_lang::prelude::Pubkey;
use anchor_lang::solana_program::system_instruction::transfer;
use vstd::bytes::spec_u64_to_le_bytes;
use vstd::prelude::*;

verus! {

/// One account that an instruction names, with what the instruction may do to it.
#[derive(Clone, Copy, Debug, PartialEq, Eq)]
pub struct AccountMeta {
    pub key: Identity,
    /// Whether the account must have signed.
    pub is_signer: bool,
    /// Whether the instruction may change the account.
    pub is_writable: bool,
}

/// An instruction for a program of the ledger: the program, the accounts it is given,
/// and the bytes it reads.
#[derive(Clone, Debug, PartialEq, Eq)]
pub struct Instruction {
    pub program_id: Identity,
    pub accounts: Vec<AccountMeta>,
    pub data: Vec<u8>,
}

/// The bytes of the system program's identity: thirty-two zeros.
pub open spec fn system_program_bytes() -> Seq<u8> {
    Seq::new(32, |i: int| 0u8)
}

/// The accounts that a system transfer names: the giver, who signs, then the receiver;
/// both may change.
pub open spec fn transfer_accounts(from: Identity, to: Identity) -> Seq<AccountMeta> {
    seq![
        AccountMeta { key: from, is_signer: true, is_writable: true },
        AccountMeta { key: to, is_signer: false, is_writable: true },
    ]
}

/// The bytes that a system transfer of `lamports` carries: the number of the transfer
/// instruction, 2, in four little-endian bytes, then the amount in eight.
pub open spec fn transfer_data(lamports: u64) -> Seq<u8> {
    seq![2u8, 0u8, 0u8, 0u8] + spec_u64_to_le_bytes(lamports)
}

/// Builds the system program's transfer instruction with
/// `anchor_lang::solana_program::system_instruction::transfer`, and hands it back field
/// by field. Trusted: the instruction is addressed to the system program, names `from`
/// as a writable signer and then `to` as writable, and carries the bincode encoding of
/// `SystemInstruction::Transfer { lamports }`, which is `transfer_data(lamports)`.
#[verifier::external_body]
fn system_transfer(from: &Identity, to: &Identity, lamports: u64) -> (ix: Instruction)
    ensures
        ix.program_id.bytes@ == system_program_bytes(),
        ix.accounts@ == transfer_accounts(*from, *to),
        ix.data@ == transfer_data(lamports),
{
    let (giver, receiver) = (Pubkey::new_from_array(from.bytes), Pubkey::new_from_array(to.bytes));
    let built = transfer(&giver, &receiver, lamports);
    let meta = |m: &anchor_lang::prelude::AccountMeta| AccountMeta {
        key: Identity { bytes: m.pubkey.to_bytes() },
        is_signer: m.is_signer,
        is_writable: m.is_writable,
    };
    Instruction {
        program_id: Identity { bytes: built.program_id.to_bytes() },
        accounts: built.accounts.iter().map(meta).collect(),
        data: built.data,
    }
}

impl Transfer {
    /// The system-program instruction that carries out this movement when the giver is an
    /// account of the system program.
    pub fn instruction(&self) -> (ix: Instruction)
        ensures
            ix.program_id.bytes@ == system_program_bytes(),
            ix.accounts@ == transfer_accounts(self.from, self.to),
            ix.data@ == transfer_data(self.amount),
    {
        system_transfer(&self.from, &self.to, self.amount)
    }
}

} // verus!
