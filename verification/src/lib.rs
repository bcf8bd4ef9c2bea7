//! A conditional asset-exchange protocol: a depositor locks a quantity of one
//! asset in a custodial vault controlled by a derived, keyless authority, a
//! counterparty settles by paying the demanded quantity of a second asset, or
//! the depositor cancels and reclaims custody. Every balance movement and
//! every refusal is specified and proved.

use vstd::prelude::*;

pub mod authority;
pub mod error;
pub mod instructions;
pub mod ledger;
pub mod state;
pub mod token;

use crate::authority::{derivation_domain, derived_authority_of, protocol_tag};
use crate::error::EscrowError;
use crate::instructions::make::Maker;
use crate::instructions::take::Take;
use crate::instructions::withdraw::WithdrawAll;
use crate::ledger::{EscrowLedger, PendingEscrow};
use crate::state::EscrowState;
use crate::token::{TokenAccount, Vault};

verus! {

/// The outcome an open must produce: a nonce already in use by a live record
/// of the same depositor is refused first; then a seed tuple for which no
/// authority can be derived; then a source account that does not cover the
/// deposit; anything else succeeds.
pub open spec fn open_outcome(
    ledger: EscrowLedger,
    ctx: Maker,
    seed: u64,
    amount_deposited: u64,
) -> Result<(), EscrowError> {
    if ledger.live(ctx.maker, seed) {
        Err(EscrowError::DuplicateEscrow)
    } else if derived_authority_of(derivation_domain(), protocol_tag(), ctx.maker, seed) is None {
        Err(EscrowError::AuthorityMismatch)
    } else if ctx.maker_ata_a.amount < amount_deposited {
        Err(EscrowError::InsufficientBalance)
    } else {
        Ok(())
    }
}

/// The outcome a settle must produce: a dead or unknown record is refused
/// first; then a record whose authority or account linkage does not match;
/// then a counter-offer that does not cover the demand; anything else
/// succeeds.
pub open spec fn settle_outcome(ledger: EscrowLedger, ctx: Take) -> Result<(), EscrowError> {
    if !ledger.live(ctx.maker, ctx.seed) {
        Err(EscrowError::EscrowNotFound)
    } else {
        let pe = ledger.record_of(ctx.maker, ctx.seed);
        if !ctx.authority_ok(pe.state, pe.vault) {
            Err(EscrowError::AuthorityMismatch)
        } else if ctx.taker_ata_b.amount < pe.state.amount_require {
            Err(EscrowError::InsufficientCounterOffer)
        } else {
            Ok(())
        }
    }
}

/// The outcome a cancel must produce: a dead or unknown record is refused
/// first; then a signer who is not the recorded depositor, a mismatched
/// refund account, or a record whose authority does not match; anything else
/// succeeds, unconditionally for the depositor.
pub open spec fn cancel_outcome(ledger: EscrowLedger, ctx: WithdrawAll) -> Result<
    (),
    EscrowError,
> {
    if !ledger.live(ctx.maker, ctx.seed) {
        Err(EscrowError::EscrowNotFound)
    } else {
        let pe = ledger.record_of(ctx.maker, ctx.seed);
        if !ctx.authority_ok(pe.state, pe.vault) {
            Err(EscrowError::AuthorityMismatch)
        } else {
            Ok(())
        }
    }
}

/// Open: creates the escrow record and the vault, derives the vault's
/// authority from the protocol tag, the depositor and the nonce, and locks
/// `amount_deposited` of asset A in the vault.
///
/// On success the record's fields equal the supplied arguments exactly and
/// the vault balance equals the deposit; on any refusal nothing changes.
pub fn initialize(
    ledger: &mut EscrowLedger,
    ctx: &mut Maker,
    seed: u64,
    amount_req: u64,
    amount_deposited: u64,
) -> (r: Result<(), EscrowError>)
    requires
        old(ledger).wf(),
        old(ctx).source_ok(),
        amount_req > 0,
        amount_deposited > 0,
    ensures
        final(ledger).wf(),
        old(ledger).inv() ==> final(ledger).inv(),
        r == open_outcome(*old(ledger), *old(ctx), seed, amount_deposited),
        r is Err ==> final(ledger).escrows@ == old(ledger).escrows@ && *final(ctx) == *old(ctx),
        r is Ok ==> ({
            let pe = final(ledger).record_of(old(ctx).maker, seed);
            &&& *final(ctx) == (Maker {
                maker_ata_a: TokenAccount {
                    amount: (old(ctx).maker_ata_a.amount - amount_deposited) as u64,
                    ..old(ctx).maker_ata_a
                },
                ..*old(ctx)
            })
            &&& final(ledger).live(old(ctx).maker, seed)
            &&& pe.state == (EscrowState {
                seed,
                maker: old(ctx).maker,
                mint_a: old(ctx).mint_a,
                mint_b: old(ctx).mint_b,
                amount_require: amount_req,
                escrow_bump: pe.state.escrow_bump,
            })
            &&& pe.vault.amount == amount_deposited
            &&& pe.vault.mint == old(ctx).mint_a
            &&& pe.vault.controlled_by(pe.state)
            &&& final(ledger).escrows@ == old(ledger).escrows@.push(pe)
            &&& forall|m: u64, s: u64|
                !(m == old(ctx).maker && s == seed) ==> final(ledger).live(m, s) == old(ledger).live(m, s)
            &&& forall|m: u64, s: u64|
                !(m == old(ctx).maker && s == seed) && old(ledger).live(m, s) ==> final(ledger).record_of(m, s) == old(ledger).record_of(m, s)
        }),
{
    match ledger.find(ctx.maker, seed) {
        Some(_) => {
            return Err(EscrowError::DuplicateEscrow);
        },
        None => {},
    }
    let auth = match authority::derive_authority(ctx.maker, seed) {
        Some(a) => a,
        None => {
            return Err(EscrowError::AuthorityMismatch);
        },
    };
    let bump = auth.bump;
    let state = ctx.initialize_escrow(seed, amount_req, bump);
    let mut vault = Vault { authority: auth.address, mint: ctx.mint_a, amount: 0 };
    match ctx.deposite_amount(&mut vault, amount_deposited) {
        Err(e) => Err(e),
        Ok(()) => {
            let pe = PendingEscrow { state, vault };
            let ghost gpe = pe;
            proof {
                assert(gpe.wf());
            }
            ledger.escrows.push(pe);
            proof {
                old(ledger).lemma_push_preserves_others(*ledger, gpe);
            }
            Ok(())
        },
    }
}

/// Settle: verifies the counterparty covers the demand, then executes both
/// legs as one indivisible step — the whole vault balance of asset A to the
/// counterparty, signed by the reconstructed derived authority, and exactly
/// the demanded amount of asset B to the depositor, signed by the
/// counterparty — and decommissions the vault.
///
/// On success the record is gone: any later settle or cancel of the same
/// record is refused with `EscrowNotFound`. On any refusal nothing changes.
pub fn exchange(ledger: &mut EscrowLedger, ctx: &mut Take) -> (r: Result<(), EscrowError>)
    requires
        old(ledger).wf(),
        old(ledger).live(old(ctx).maker, old(ctx).seed) ==> ({
            let pe = old(ledger).record_of(old(ctx).maker, old(ctx).seed);
            &&& old(ctx).taker_ata_a.amount + pe.vault.amount <= u64::MAX
            &&& old(ctx).maker_ata_b.amount + pe.state.amount_require <= u64::MAX
        }),
    ensures
        final(ledger).wf(),
        old(ledger).inv() ==> final(ledger).inv(),
        r == settle_outcome(*old(ledger), *old(ctx)),
        r is Err ==> final(ledger).escrows@ == old(ledger).escrows@ && *final(ctx) == *old(ctx),
        r is Ok ==> ({
            let pe = old(ledger).record_of(old(ctx).maker, old(ctx).seed);
            &&& *final(ctx) == (Take {
                taker_ata_a: TokenAccount {
                    amount: (old(ctx).taker_ata_a.amount + pe.vault.amount) as u64,
                    ..old(ctx).taker_ata_a
                },
                taker_ata_b: TokenAccount {
                    amount: (old(ctx).taker_ata_b.amount - pe.state.amount_require) as u64,
                    ..old(ctx).taker_ata_b
                },
                maker_ata_b: TokenAccount {
                    amount: (old(ctx).maker_ata_b.amount + pe.state.amount_require) as u64,
                    ..old(ctx).maker_ata_b
                },
                ..*old(ctx)
            })
            &&& !final(ledger).live(old(ctx).maker, old(ctx).seed)
            &&& final(ledger).escrows@ == old(ledger).escrows@.remove(
                old(ledger).idx_of(old(ctx).maker, old(ctx).seed),
            )
            &&& forall|m: u64, s: u64|
                !(m == old(ctx).maker && s == old(ctx).seed) ==> final(ledger).live(m, s) == old(ledger).live(m, s)
            &&& forall|m: u64, s: u64|
                !(m == old(ctx).maker && s == old(ctx).seed) && old(ledger).live(m, s) ==> final(ledger).record_of(m, s) == old(ledger).record_of(m, s)
        }),
{
    let idx = match ledger.find(ctx.maker, ctx.seed) {
        None => {
            return Err(EscrowError::EscrowNotFound);
        },
        Some(i) => i,
    };
    let mut pe = ledger.escrows.remove(idx);
    let r = ctx.exchange_amount(&pe.state, &mut pe.vault);
    match r {
        Ok(()) => {
            proof {
                old(ledger).lemma_remove_preserves_others(
                    *ledger,
                    old(ctx).maker,
                    old(ctx).seed,
                );
            }
            ctx.escrow_close(pe.vault);
            Ok(())
        },
        Err(e) => {
            ledger.escrows.insert(idx, pe);
            proof {
                assert(ledger.escrows@ =~= old(ledger).escrows@);
            }
            Err(e)
        },
    }
}

/// Cancel: returns the whole vault balance of asset A to the depositor,
/// signed by the reconstructed derived authority, and decommissions the
/// vault. Unconditional for the depositor; refused for anyone else.
///
/// On success the record is gone: any later settle or cancel of the same
/// record is refused with `EscrowNotFound`. On any refusal nothing changes.
pub fn refund(ledger: &mut EscrowLedger, ctx: &mut WithdrawAll) -> (r: Result<(), EscrowError>)
    requires
        old(ledger).wf(),
        old(ledger).live(old(ctx).maker, old(ctx).seed) ==> old(ctx).maker_ata_a.amount + old(ledger).record_of(old(ctx).maker, old(ctx).seed).vault.amount <= u64::MAX,
    ensures
        final(ledger).wf(),
        old(ledger).inv() ==> final(ledger).inv(),
        r == cancel_outcome(*old(ledger), *old(ctx)),
        r is Err ==> final(ledger).escrows@ == old(ledger).escrows@ && *final(ctx) == *old(ctx),
        r is Ok ==> ({
            let pe = old(ledger).record_of(old(ctx).maker, old(ctx).seed);
            &&& *final(ctx) == (WithdrawAll {
                maker_ata_a: TokenAccount {
                    amount: (old(ctx).maker_ata_a.amount + pe.vault.amount) as u64,
                    ..old(ctx).maker_ata_a
                },
                ..*old(ctx)
            })
            &&& !final(ledger).live(old(ctx).maker, old(ctx).seed)
            &&& final(ledger).escrows@ == old(ledger).escrows@.remove(
                old(ledger).idx_of(old(ctx).maker, old(ctx).seed),
            )
            &&& forall|m: u64, s: u64|
                !(m == old(ctx).maker && s == old(ctx).seed) ==> final(ledger).live(m, s) == old(ledger).live(m, s)
            &&& forall|m: u64, s: u64|
                !(m == old(ctx).maker && s == old(ctx).seed) && old(ledger).live(m, s) ==> final(ledger).record_of(m, s) == old(ledger).record_of(m, s)
        }),
{
    let idx = match ledger.find(ctx.maker, ctx.seed) {
        None => {
            return Err(EscrowError::EscrowNotFound);
        },
        Some(i) => i,
    };
    let mut pe = ledger.escrows.remove(idx);
    let r = ctx.withdraw_all(&pe.state, &mut pe.vault);
    match r {
        Ok(()) => {
            proof {
                old(ledger).lemma_remove_preserves_others(
                    *ledger,
                    old(ctx).maker,
                    old(ctx).seed,
                );
            }
            ctx.close_vault(pe.vault);
            Ok(())
        },
        Err(e) => {
            ledger.escrows.insert(idx, pe);
            proof {
                assert(ledger.escrows@ =~= old(ledger).escrows@);
            }
            Err(e)
        },
    }
}

/// LAW: operations on a terminal or unknown record are refused. Once a
/// record is no longer live — after a successful settle or cancel — any
/// settle or cancel addressed to it yields `EscrowNotFound`; together with
/// the entry contracts, which leave everything unchanged on a refusal, this
/// is why settlement can happen at most once per record.
pub proof fn lemma_terminal_record_refused(ledger: EscrowLedger, t: Take, w: WithdrawAll)
    requires
        !ledger.live(t.maker, t.seed),
        !ledger.live(w.maker, w.seed),
    ensures
        settle_outcome(ledger, t) == Err::<(), EscrowError>(EscrowError::EscrowNotFound),
        cancel_outcome(ledger, w) == Err::<(), EscrowError>(EscrowError::EscrowNotFound),
{
}

/// LAW: a nonce already in use by a live record of the same depositor is
/// refused. While such a record lives, an open with the same depositor and
/// nonce yields `DuplicateEscrow`, whatever else is supplied; the entry
/// contract adds that a refusal creates nothing.
pub proof fn lemma_duplicate_open_refused(
    ledger: EscrowLedger,
    ctx: Maker,
    seed: u64,
    amount_deposited: u64,
)
    requires
        ledger.live(ctx.maker, seed),
    ensures
        open_outcome(ledger, ctx, seed, amount_deposited) == Err::<(), EscrowError>(
            EscrowError::DuplicateEscrow,
        ),
{
}

/// LAW: custody is always reachable by the protocol. Under the ledger
/// invariant every live vault is controlled by exactly the authority that
/// derivation yields for its record's seed tuple, so the capability can
/// always be reconstructed and a settle or cancel is never refused for a
/// missing authority — only for mismatched accounts, signers or balances.
pub proof fn lemma_authority_reconstructible(ledger: EscrowLedger, maker: u64, seed: u64)
    requires
        ledger.inv(),
        ledger.live(maker, seed),
    ensures
        ledger.record_of(maker, seed).vault.controlled_by(ledger.record_of(maker, seed).state),
        derived_authority_of(derivation_domain(), protocol_tag(), maker, seed) is Some,
{
    let i = ledger.idx_of(maker, seed);
    assert(0 <= i < ledger.escrows@.len() && ledger.escrows@[i].keyed(maker, seed));
    assert(ledger.escrows@[i].wf());
}

} // verus!
