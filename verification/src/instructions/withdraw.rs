use vstd::prelude::*;

use crate::authority::{bytes_eq, derive_authority};
use crate::error::EscrowError;
use crate::state::EscrowState;
use crate::token::{release_from_vault, TokenAccount, Vault};

verus! {

/// Everything the cancel operation reads from its caller: the signer, the
/// record reference, and the depositor's account that takes the refund.
#[derive(Clone, Copy, PartialEq, Eq, Structural, Debug)]
pub struct WithdrawAll {
    /// Whoever signed the cancel; only the original depositor may succeed.
    pub caller: u64,
    /// The depositor recorded in the escrow being cancelled.
    pub maker: u64,
    /// The nonce of the escrow being cancelled.
    pub seed: u64,
    /// The depositor's account that receives the vault balance back.
    pub maker_ata_a: TokenAccount,
}

impl WithdrawAll {
    /// The signer is the recorded depositor and the refund account is the
    /// depositor's account for the locked asset.
    pub open spec fn linkage_ok(self, state: EscrowState, vault: Vault) -> bool {
        &&& state.maker == self.maker
        &&& state.seed == self.seed
        &&& self.caller == state.maker
        &&& self.maker_ata_a.owner == state.maker
        &&& self.maker_ata_a.mint == state.mint_a
        &&& vault.mint == state.mint_a
    }

    /// Both cancellation conditions that answer for `AuthorityMismatch`: the
    /// reconstructed capability controls the vault, and the signer and
    /// refund account match the record.
    pub open spec fn authority_ok(self, state: EscrowState, vault: Vault) -> bool {
        vault.controlled_by(state) && self.linkage_ok(state, vault)
    }

    /// Returns the entire vault balance to the depositor, signed by the
    /// capability reconstructed from the record's seed tuple and bump.
    /// Unconditional for the depositor; refused with `AuthorityMismatch`,
    /// and nothing moves, for anyone else or for mismatched accounts.
    pub fn withdraw_all(&mut self, state: &EscrowState, vault: &mut Vault) -> (r: Result<
        (),
        EscrowError,
    >)
        requires
            old(self).maker_ata_a.amount + old(vault).amount <= u64::MAX,
        ensures
            r is Ok <==> old(self).authority_ok(*state, *old(vault)),
            r is Err ==> *final(self) == *old(self) && *final(vault) == *old(vault) && r
                == Err::<(), EscrowError>(EscrowError::AuthorityMismatch),
            r is Ok ==> *final(self) == (WithdrawAll {
                maker_ata_a: TokenAccount {
                    amount: (old(self).maker_ata_a.amount + old(vault).amount) as u64,
                    ..old(self).maker_ata_a
                },
                ..*old(self)
            }) && final(vault).amount == 0 && final(vault).mint == old(vault).mint && final(vault).authority@ == old(vault).authority@,
    {
        let linkage = state.maker == self.maker && state.seed == self.seed && self.caller
            == state.maker && self.maker_ata_a.owner == state.maker && self.maker_ata_a.mint
            == state.mint_a && vault.mint == state.mint_a;
        if !linkage {
            return Err(EscrowError::AuthorityMismatch);
        }
        let auth = match derive_authority(state.maker, state.seed) {
            Some(a) => a,
            None => {
                return Err(EscrowError::AuthorityMismatch);
            },
        };
        if auth.bump != state.escrow_bump || !bytes_eq(&auth.address, &vault.authority) {
            return Err(EscrowError::AuthorityMismatch);
        }
        let vault_balance = vault.amount;
        release_from_vault(vault, &mut self.maker_ata_a, &auth, vault_balance);
        Ok(())
    }

    /// Decommissions the emptied vault after the refund, as settlement does.
    pub fn close_vault(&self, vault: Vault)
        requires
            vault.amount == 0,
    {
        let _ = vault;
    }
}

} // verus!
