use anchor_escrow::error::EscrowError;
use anchor_escrow::instructions::make::Maker;
use anchor_escrow::instructions::take::Take;
use anchor_escrow::instructions::withdraw::WithdrawAll;
use anchor_escrow::ledger::EscrowLedger;
use anchor_escrow::token::TokenAccount;
use anchor_escrow::{exchange, initialize, refund};

const MAKER: u64 = 7;
const TAKER: u64 = 9;
const MINT_X: u64 = 1;
const MINT_Y: u64 = 2;

fn maker_ctx(balance: u64) -> Maker {
    Maker {
        maker: MAKER,
        mint_a: MINT_X,
        mint_b: MINT_Y,
        maker_ata_a: TokenAccount { owner: MAKER, mint: MINT_X, amount: balance },
    }
}

fn taker_ctx(seed: u64, taker_b: u64) -> Take {
    Take {
        maker: MAKER,
        taker: TAKER,
        seed,
        mint_a: MINT_X,
        mint_b: MINT_Y,
        maker_ata_b: TokenAccount { owner: MAKER, mint: MINT_Y, amount: 0 },
        taker_ata_b: TokenAccount { owner: TAKER, mint: MINT_Y, amount: taker_b },
        taker_ata_a: TokenAccount { owner: TAKER, mint: MINT_X, amount: 0 },
    }
}

#[test]
fn open_locks_deposit_and_records_arguments() {
    let mut ledger = EscrowLedger::new();
    let mut m = maker_ctx(100);
    let r = initialize(&mut ledger, &mut m, 1, 50, 20);
    assert_eq!(r, Ok(()));
    assert!(ledger.is_live(MAKER, 1));
    assert_eq!(ledger.vault_balance(MAKER, 1), Some(20));
    assert_eq!(m.maker_ata_a.amount, 80);
    let st = ledger.record(MAKER, 1).unwrap();
    assert_eq!(st.seed, 1);
    assert_eq!(st.maker, MAKER);
    assert_eq!(st.mint_a, MINT_X);
    assert_eq!(st.mint_b, MINT_Y);
    assert_eq!(st.amount_require, 50);
}

#[test]
fn open_rejects_insufficient_balance() {
    let mut ledger = EscrowLedger::new();
    let mut m = maker_ctx(19);
    let r = initialize(&mut ledger, &mut m, 1, 50, 20);
    assert_eq!(r, Err(EscrowError::InsufficientBalance));
    assert_eq!(m.maker_ata_a.amount, 19);
    assert!(!ledger.is_live(MAKER, 1));
    assert_eq!(ledger.len(), 0);
}

#[test]
fn open_rejects_duplicate_nonce() {
    let mut ledger = EscrowLedger::new();
    let mut m = maker_ctx(100);
    assert_eq!(initialize(&mut ledger, &mut m, 1, 50, 20), Ok(()));
    let r = initialize(&mut ledger, &mut m, 1, 60, 30);
    assert_eq!(r, Err(EscrowError::DuplicateEscrow));
    assert_eq!(ledger.len(), 1);
    assert_eq!(ledger.vault_balance(MAKER, 1), Some(20));
    assert_eq!(m.maker_ata_a.amount, 80);
    let st = ledger.record(MAKER, 1).unwrap();
    assert_eq!(st.amount_require, 50);
}

#[test]
fn same_nonce_is_free_again_after_the_record_dies() {
    let mut ledger = EscrowLedger::new();
    let mut m = maker_ctx(100);
    assert_eq!(initialize(&mut ledger, &mut m, 1, 50, 20), Ok(()));
    let mut w = WithdrawAll {
        caller: MAKER,
        maker: MAKER,
        seed: 1,
        maker_ata_a: TokenAccount { owner: MAKER, mint: MINT_X, amount: 0 },
    };
    assert_eq!(refund(&mut ledger, &mut w), Ok(()));
    assert_eq!(initialize(&mut ledger, &mut m, 1, 50, 20), Ok(()));
    assert_eq!(ledger.vault_balance(MAKER, 1), Some(20));
}

#[test]
fn settle_moves_both_legs_exactly() {
    let mut ledger = EscrowLedger::new();
    let mut m = maker_ctx(100);
    assert_eq!(initialize(&mut ledger, &mut m, 1, 50, 20), Ok(()));
    let mut t = taker_ctx(1, 75);
    let r = exchange(&mut ledger, &mut t);
    assert_eq!(r, Ok(()));
    assert_eq!(t.taker_ata_a.amount, 20);
    assert_eq!(t.taker_ata_b.amount, 25);
    assert_eq!(t.maker_ata_b.amount, 50);
    assert!(!ledger.is_live(MAKER, 1));
    assert_eq!(ledger.vault_balance(MAKER, 1), None);
}

#[test]
fn settle_rejects_short_counter_offer_and_moves_nothing() {
    let mut ledger = EscrowLedger::new();
    let mut m = maker_ctx(200);
    assert_eq!(initialize(&mut ledger, &mut m, 1, 100, 20), Ok(()));
    let mut t = taker_ctx(1, 99);
    let r = exchange(&mut ledger, &mut t);
    assert_eq!(r, Err(EscrowError::InsufficientCounterOffer));
    assert_eq!(t.taker_ata_a.amount, 0);
    assert_eq!(t.taker_ata_b.amount, 99);
    assert_eq!(t.maker_ata_b.amount, 0);
    assert!(ledger.is_live(MAKER, 1));
    assert_eq!(ledger.vault_balance(MAKER, 1), Some(20));
}

#[test]
fn second_settle_fails_and_balances_reflect_only_the_first() {
    let mut ledger = EscrowLedger::new();
    let mut m = maker_ctx(100);
    assert_eq!(initialize(&mut ledger, &mut m, 1, 50, 20), Ok(()));
    let mut t = taker_ctx(1, 80);
    assert_eq!(exchange(&mut ledger, &mut t), Ok(()));
    let after_first = (t.taker_ata_a.amount, t.taker_ata_b.amount, t.maker_ata_b.amount);
    let r = exchange(&mut ledger, &mut t);
    assert_eq!(r, Err(EscrowError::EscrowNotFound));
    assert_eq!(
        (t.taker_ata_a.amount, t.taker_ata_b.amount, t.maker_ata_b.amount),
        after_first
    );
    assert_eq!(after_first, (20, 30, 50));
}

#[test]
fn settle_rejects_mismatched_accounts() {
    let mut ledger = EscrowLedger::new();
    let mut m = maker_ctx(100);
    assert_eq!(initialize(&mut ledger, &mut m, 1, 50, 20), Ok(()));
    let mut t = taker_ctx(1, 80);
    // The counterparty offers the wrong asset kind for leg B.
    t.taker_ata_b.mint = MINT_X;
    let r = exchange(&mut ledger, &mut t);
    assert_eq!(r, Err(EscrowError::AuthorityMismatch));
    assert!(ledger.is_live(MAKER, 1));
    assert_eq!(ledger.vault_balance(MAKER, 1), Some(20));
}

#[test]
fn cancel_refunds_the_whole_vault_and_kills_the_record() {
    let mut ledger = EscrowLedger::new();
    let mut m = maker_ctx(100);
    assert_eq!(initialize(&mut ledger, &mut m, 1, 50, 20), Ok(()));
    assert_eq!(m.maker_ata_a.amount, 80);
    let mut w = WithdrawAll {
        caller: MAKER,
        maker: MAKER,
        seed: 1,
        maker_ata_a: m.maker_ata_a,
    };
    let r = refund(&mut ledger, &mut w);
    assert_eq!(r, Ok(()));
    assert_eq!(w.maker_ata_a.amount, 100);
    assert!(!ledger.is_live(MAKER, 1));
    // A later settle attempt finds nothing.
    let mut t = taker_ctx(1, 80);
    assert_eq!(exchange(&mut ledger, &mut t), Err(EscrowError::EscrowNotFound));
    assert_eq!(t.taker_ata_a.amount, 0);
}

#[test]
fn cancel_rejects_a_stranger() {
    let mut ledger = EscrowLedger::new();
    let mut m = maker_ctx(100);
    assert_eq!(initialize(&mut ledger, &mut m, 1, 50, 20), Ok(()));
    let mut w = WithdrawAll {
        caller: TAKER,
        maker: MAKER,
        seed: 1,
        maker_ata_a: TokenAccount { owner: MAKER, mint: MINT_X, amount: 0 },
    };
    let r = refund(&mut ledger, &mut w);
    assert_eq!(r, Err(EscrowError::AuthorityMismatch));
    assert!(ledger.is_live(MAKER, 1));
    assert_eq!(ledger.vault_balance(MAKER, 1), Some(20));
    assert_eq!(w.maker_ata_a.amount, 0);
}

#[test]
fn second_cancel_fails() {
    let mut ledger = EscrowLedger::new();
    let mut m = maker_ctx(100);
    assert_eq!(initialize(&mut ledger, &mut m, 1, 50, 20), Ok(()));
    let mut w = WithdrawAll {
        caller: MAKER,
        maker: MAKER,
        seed: 1,
        maker_ata_a: m.maker_ata_a,
    };
    assert_eq!(refund(&mut ledger, &mut w), Ok(()));
    assert_eq!(refund(&mut ledger, &mut w), Err(EscrowError::EscrowNotFound));
    assert_eq!(w.maker_ata_a.amount, 100);
}

#[test]
fn records_of_other_depositors_and_nonces_are_untouched() {
    let mut ledger = EscrowLedger::new();
    let mut m = maker_ctx(100);
    assert_eq!(initialize(&mut ledger, &mut m, 1, 50, 20), Ok(()));
    assert_eq!(initialize(&mut ledger, &mut m, 2, 60, 30), Ok(()));
    let mut other = Maker {
        maker: 11,
        mint_a: MINT_X,
        mint_b: MINT_Y,
        maker_ata_a: TokenAccount { owner: 11, mint: MINT_X, amount: 40 },
    };
    assert_eq!(initialize(&mut ledger, &mut other, 1, 5, 40), Ok(()));
    assert_eq!(ledger.len(), 3);
    let mut t = taker_ctx(2, 60);
    assert_eq!(exchange(&mut ledger, &mut t), Ok(()));
    assert_eq!(ledger.len(), 2);
    assert_eq!(ledger.vault_balance(MAKER, 1), Some(20));
    assert_eq!(ledger.vault_balance(11, 1), Some(40));
    assert_eq!(ledger.vault_balance(MAKER, 2), None);
}
