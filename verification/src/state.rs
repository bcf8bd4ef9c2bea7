use vstd::prelude::*;

verus! {

/// One escrow record: who deposited, which assets are exchanged, how much of
/// asset B the depositor demands, and the proof byte needed to reconstruct the
/// derived vault authority.
#[derive(Clone, Copy, PartialEq, Eq, Structural, Debug)]
pub struct EscrowState {
    /// Depositor-chosen disambiguator; part of the authority derivation.
    pub seed: u64,
    /// Identity of the depositor, the sole beneficiary of a refund.
    pub maker: u64,
    /// The asset being locked in the vault.
    pub mint_a: u64,
    /// The asset the depositor wants in return.
    pub mint_b: u64,
    /// Quantity of asset B the depositor demands.
    pub amount_require: u64,
    /// Bump byte that, together with the seed tuple, reconstructs the
    /// derived authority address.
    pub escrow_bump: u8,
}

} // verus!
