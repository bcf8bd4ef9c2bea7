use vstd::prelude::*;

use crate::error::EscrowError;
use crate::state::EscrowState;
use crate::token::{deposit_to_vault, TokenAccount, Vault};

verus! {

/// Everything the open operation reads from its caller: the depositor, the
/// two asset kinds, and the depositor's source account for the locked asset.
#[derive(Clone, Copy, PartialEq, Eq, Structural, Debug)]
pub struct Maker {
    /// The depositor, who must co-sign the open.
    pub maker: u64,
    /// The asset being locked.
    pub mint_a: u64,
    /// The asset the depositor wants in return.
    pub mint_b: u64,
    /// The depositor's account holding the asset to lock.
    pub maker_ata_a: TokenAccount,
}

impl Maker {
    /// The source account really is the depositor's and holds the locked
    /// asset kind.
    pub open spec fn source_ok(self) -> bool {
        self.maker_ata_a.owner == self.maker && self.maker_ata_a.mint == self.mint_a
    }

    /// Builds the escrow record for this depositor: every field comes
    /// verbatim from the supplied arguments and the context.
    pub fn initialize_escrow(&self, seed: u64, amount_req: u64, bump: u8) -> (st: EscrowState)
        ensures
            st == (EscrowState {
                seed,
                maker: self.maker,
                mint_a: self.mint_a,
                mint_b: self.mint_b,
                amount_require: amount_req,
                escrow_bump: bump,
            }),
    {
        EscrowState {
            seed,
            maker: self.maker,
            mint_a: self.mint_a,
            mint_b: self.mint_b,
            amount_require: amount_req,
            escrow_bump: bump,
        }
    }

    /// Moves the deposit from the depositor's source account into the fresh
    /// vault. Refused with `InsufficientBalance`, and nothing moves, exactly
    /// when the source does not cover the deposit.
    pub fn deposite_amount(&mut self, vault: &mut Vault, amount: u64) -> (r: Result<(), EscrowError>)
        requires
            old(self).maker_ata_a.mint == old(vault).mint,
            old(vault).amount == 0,
        ensures
            r is Ok <==> old(self).maker_ata_a.amount >= amount,
            r is Err ==> *final(self) == *old(self) && *final(vault) == *old(vault) && r
                == Err::<(), EscrowError>(EscrowError::InsufficientBalance),
            r is Ok ==> *final(self) == (Maker {
                maker_ata_a: TokenAccount {
                    amount: (old(self).maker_ata_a.amount - amount) as u64,
                    ..old(self).maker_ata_a
                },
                ..*old(self)
            }) && final(vault).amount == amount && final(vault).mint == old(vault).mint && final(vault).authority@ == old(vault).authority@,
    {
        if self.maker_ata_a.amount < amount {
            return Err(EscrowError::InsufficientBalance);
        }
        deposit_to_vault(&mut self.maker_ata_a, vault, amount);
        Ok(())
    }
}

} // verus!
