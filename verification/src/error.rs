use vstd::prelude::*;

verus! {

/// Every way an escrow operation can be refused. Each variant is detected
/// before any balance moves, so a refused operation changes nothing.
#[derive(Clone, Copy, PartialEq, Eq, Structural, Debug)]
pub enum EscrowError {
    /// The depositor's source account does not cover the deposit at open.
    InsufficientBalance,
    /// The counterparty's asset-B account does not cover the demanded
    /// amount at settlement.
    InsufficientCounterOffer,
    /// The nonce is already in use by a live record of the same depositor.
    DuplicateEscrow,
    /// The signer or the supplied accounts do not match what the record
    /// links to, or no vault authority can be derived for the seed tuple.
    AuthorityMismatch,
    /// The record is unknown or already terminal: its vault is gone.
    EscrowNotFound,
}

} // verus!
