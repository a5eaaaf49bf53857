use vstd::prelude::*;
use crate::identity::Identity;
use crate::error::TransferError;

verus! {

/// One instruction to the value-transfer ledger: move `amount` from the
/// account of `from` to the account of `to`, signed for by `authority`.
#[derive(Clone, Copy, Debug, PartialEq, Eq)]
pub struct TransferInstruction {
    pub from: Identity,
    pub to: Identity,
    pub authority: Identity,
    pub amount: u64,
}

impl TransferInstruction {
    /// The instruction by which `payer` pays `amount` to `payee` on their own
    /// authority.
    pub open spec fn payment(payer: Identity, payee: Identity, amount: u64) -> TransferInstruction {
        TransferInstruction { from: payer, to: payee, authority: payer, amount }
    }
}

/// What the ledger answers to one instruction.
pub type TransferReply = Result<(), TransferError>;

} // verus!
