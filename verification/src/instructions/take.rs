use vstd::prelude::*;

use crate::authority::{bytes_eq, derive_authority};
use crate::error::EscrowError;
use crate::state::EscrowState;
use crate::token::{release_from_vault, transfer, TokenAccount, Vault};

verus! {

/// Everything the settle operation reads from its caller: the counterparty,
/// the record reference, and the three accounts the two legs touch.
#[derive(Clone, Copy, PartialEq, Eq, Structural, Debug)]
pub struct Take {
    /// The depositor recorded in the escrow being settled.
    pub maker: u64,
    /// The counterparty, who must co-sign the settle.
    pub taker: u64,
    /// The nonce of the escrow being settled.
    pub seed: u64,
    /// The asset the vault holds.
    pub mint_a: u64,
    /// The asset the depositor is owed.
    pub mint_b: u64,
    /// The depositor's account that receives asset B.
    pub maker_ata_b: TokenAccount,
    /// The counterparty's account that pays asset B.
    pub taker_ata_b: TokenAccount,
    /// The counterparty's account that receives the vault's asset A.
    pub taker_ata_a: TokenAccount,
}

impl Take {
    /// The record's stored identities match the supplied accounts: same
    /// depositor, same assets, each account owned by the right party and
    /// holding the right asset, and the vault holding the locked asset.
    pub open spec fn linkage_ok(self, state: EscrowState, vault: Vault) -> bool {
        &&& state.maker == self.maker
        &&& state.seed == self.seed
        &&& state.mint_a == self.mint_a
        &&& state.mint_b == self.mint_b
        &&& vault.mint == self.mint_a
        &&& self.maker_ata_b.owner == self.maker && self.maker_ata_b.mint == self.mint_b
        &&& self.taker_ata_b.owner == self.taker && self.taker_ata_b.mint == self.mint_b
        &&& self.taker_ata_a.owner == self.taker && self.taker_ata_a.mint == self.mint_a
    }

    /// Both settlement conditions that answer for `AuthorityMismatch`: the
    /// reconstructed capability controls the vault, and the supplied
    /// accounts match the record.
    pub open spec fn authority_ok(self, state: EscrowState, vault: Vault) -> bool {
        vault.controlled_by(state) && self.linkage_ok(state, vault)
    }

    /// The two transfer legs of settlement, as one indivisible step: either
    /// every check passes and both legs move in full, or nothing moves.
    ///
    /// Leg A hands the entire vault balance to the counterparty, signed by
    /// the capability reconstructed from the record's seed tuple and bump;
    /// leg B hands exactly the demanded amount of asset B to the depositor,
    /// signed by the counterparty. The counter-offer balance is checked
    /// before either leg runs.
    pub fn exchange_amount(&mut self, state: &EscrowState, vault: &mut Vault) -> (r: Result<
        (),
        EscrowError,
    >)
        requires
            old(self).taker_ata_a.amount + old(vault).amount <= u64::MAX,
            old(self).maker_ata_b.amount + state.amount_require <= u64::MAX,
        ensures
            r is Ok <==> old(self).authority_ok(*state, *old(vault)) && old(self).taker_ata_b.amount
                >= state.amount_require,
            r is Err ==> *final(self) == *old(self) && *final(vault) == *old(vault),
            !old(self).authority_ok(*state, *old(vault)) ==> r == Err::<(), EscrowError>(
                EscrowError::AuthorityMismatch,
            ),
            old(self).authority_ok(*state, *old(vault)) && old(self).taker_ata_b.amount
                < state.amount_require ==> r == Err::<(), EscrowError>(
                EscrowError::InsufficientCounterOffer,
            ),
            r is Ok ==> *final(self) == (Take {
                taker_ata_a: TokenAccount {
                    amount: (old(self).taker_ata_a.amount + old(vault).amount) as u64,
                    ..old(self).taker_ata_a
                },
                taker_ata_b: TokenAccount {
                    amount: (old(self).taker_ata_b.amount - state.amount_require) as u64,
                    ..old(self).taker_ata_b
                },
                maker_ata_b: TokenAccount {
                    amount: (old(self).maker_ata_b.amount + state.amount_require) as u64,
                    ..old(self).maker_ata_b
                },
                ..*old(self)
            }) && final(vault).amount == 0 && final(vault).mint == old(vault).mint && final(vault).authority@ == old(vault).authority@,
    {
        let linkage = state.maker == self.maker && state.seed == self.seed && state.mint_a
            == self.mint_a && state.mint_b == self.mint_b && vault.mint == self.mint_a
            && self.maker_ata_b.owner == self.maker && self.maker_ata_b.mint == self.mint_b
            && self.taker_ata_b.owner == self.taker && self.taker_ata_b.mint == self.mint_b
            && self.taker_ata_a.owner == self.taker && self.taker_ata_a.mint == self.mint_a;
        if !linkage {
            return Err(EscrowError::AuthorityMismatch);
        }
        let auth = match derive_authority(state.maker, state.seed) {
            Some(a) => a,
            None => {
                return Err(EscrowError::AuthorityMismatch);
            },
        };
        if auth.bump != state.escrow_bump || !bytes_eq(&auth.address, &vault.authority) {
            return Err(EscrowError::AuthorityMismatch);
        }
        if self.taker_ata_b.amount < state.amount_require {
            return Err(EscrowError::InsufficientCounterOffer);
        }
        let vault_balance = vault.amount;
        release_from_vault(vault, &mut self.taker_ata_a, &auth, vault_balance);
        transfer(&mut self.taker_ata_b, &mut self.maker_ata_b, state.amount_require);
        Ok(())
    }

    /// Decommissions the emptied vault: by construction of leg A its balance
    /// is zero, and consuming it here models the custodial account ceasing
    /// to exist, its residual storage going back to the depositor.
    pub fn escrow_close(&self, vault: Vault)
        requires
            vault.amount == 0,
    {
        let _ = vault;
    }
}

} // verus!
