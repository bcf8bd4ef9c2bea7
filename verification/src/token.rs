use vstd::prelude::*;

use crate::authority::{derivation_domain, derived_authority_of, protocol_tag, DerivedAuthority};
use crate::state::EscrowState;

verus! {

/// A fungible-asset account held by an ordinary identity.
#[derive(Clone, Copy, PartialEq, Eq, Structural, Debug)]
pub struct TokenAccount {
    /// Identity that controls the account.
    pub owner: u64,
    /// The asset kind the account holds.
    pub mint: u64,
    /// Current balance.
    pub amount: u64,
}

/// The custodial holding account for the locked asset. Unlike a
/// `TokenAccount` it is controlled by a derived, keyless authority, so only
/// code that can reconstruct that authority may move its balance.
#[derive(Debug)]
pub struct Vault {
    /// Raw bytes of the derived authority address that controls the vault.
    pub authority: Vec<u8>,
    /// The asset kind the vault holds.
    pub mint: u64,
    /// Current balance.
    pub amount: u64,
}

impl Vault {
    /// The vault is controlled by exactly the authority that derivation
    /// yields for the record's seed tuple, with the recorded bump byte.
    pub open spec fn controlled_by(self, state: EscrowState) -> bool {
        derived_authority_of(derivation_domain(), protocol_tag(), state.maker, state.seed)
            == Some((self.authority@, state.escrow_bump))
    }
}

/// The atomic value-transfer primitive between two ordinary accounts, modelled
/// directly: the source must cover the amount and the destination must not
/// overflow, and exactly `amount` moves.
pub fn transfer(from: &mut TokenAccount, to: &mut TokenAccount, amount: u64)
    requires
        old(from).mint == old(to).mint,
        old(from).amount >= amount,
        old(to).amount + amount <= u64::MAX,
    ensures
        final(from).amount == old(from).amount - amount,
        final(to).amount == old(to).amount + amount,
        final(from).owner == old(from).owner,
        final(from).mint == old(from).mint,
        final(to).owner == old(to).owner,
        final(to).mint == old(to).mint,
{
    from.amount = from.amount - amount;
    to.amount = to.amount + amount;
}

/// Moves `amount` from an ordinary account into the vault. The vault's
/// authority and asset kind are untouched.
pub fn deposit_to_vault(from: &mut TokenAccount, vault: &mut Vault, amount: u64)
    requires
        old(from).mint == old(vault).mint,
        old(from).amount >= amount,
        old(vault).amount + amount <= u64::MAX,
    ensures
        final(from).amount == old(from).amount - amount,
        final(from).owner == old(from).owner,
        final(from).mint == old(from).mint,
        final(vault).amount == old(vault).amount + amount,
        final(vault).mint == old(vault).mint,
        final(vault).authority@ == old(vault).authority@,
{
    from.amount = from.amount - amount;
    vault.amount = vault.amount + amount;
}

/// Moves `amount` out of the vault. The caller must present the capability
/// token whose address equals the vault's controlling authority: no other
/// path may drain custody.
pub fn release_from_vault(vault: &mut Vault, to: &mut TokenAccount, auth: &DerivedAuthority, amount: u64)
    requires
        auth.address@ == old(vault).authority@,
        old(vault).mint == old(to).mint,
        old(vault).amount >= amount,
        old(to).amount + amount <= u64::MAX,
    ensures
        final(vault).amount == old(vault).amount - amount,
        final(vault).mint == old(vault).mint,
        final(vault).authority@ == old(vault).authority@,
        final(to).amount == old(to).amount + amount,
        final(to).owner == old(to).owner,
        final(to).mint == old(to).mint,
{
    vault.amount = vault.amount - amount;
    to.amount = to.amount + amount;
}

} // verus!
