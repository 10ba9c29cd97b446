use crate::pubkey::Pubkey;
use vstd::prelude::*;

verus! {

/// One account that a requested action touches, as the signers saw it.
#[derive(Debug, Clone, Copy)]
pub struct TransactionAccount {
    pub pubkey: Pubkey,
    pub is_signer: bool,
    pub is_writable: bool,
}

/// A request to run an action under the configuration's delegated authority.
#[derive(Debug, Clone)]
pub struct ExecuteMultiSigTx {
    /// The program the action is sent to.
    pub program_id: Pubkey,
    /// The accounts the action touches, in order.
    pub accounts: Vec<TransactionAccount>,
    /// The action's own data, opaque to this crate.
    pub data: Vec<u8>,
    /// The owners the caller claims have signed, in record order.
    pub signers: Vec<Pubkey>,
    /// The configuration nonce this request was signed against.
    pub nonce: u64,
}

/// An account reference of an instruction held by the runtime.
#[derive(Debug, Clone, Copy)]
pub struct AccountMeta {
    pub pubkey: Pubkey,
    pub is_signer: bool,
    pub is_writable: bool,
}

/// An instruction as the runtime holds it: the signature-verification record
/// read back from the transaction, or the action handed on for execution.
#[derive(Debug, Clone)]
pub struct Instruction {
    pub program_id: Pubkey,
    pub accounts: Vec<AccountMeta>,
    pub data: Vec<u8>,
}

} // verus!
