use vstd::prelude::*;

use crate::state::EscrowState;
use crate::token::Vault;

verus! {

/// A live escrow: the record together with the vault that holds custody.
/// While this pair exists the exchange is pending; settlement or
/// cancellation decommissions the vault and removes the pair.
#[derive(Debug)]
pub struct PendingEscrow {
    pub state: EscrowState,
    pub vault: Vault,
}

impl PendingEscrow {
    /// The pair is addressed by its depositor and nonce.
    pub open spec fn keyed(self, maker: u64, seed: u64) -> bool {
        self.state.maker == maker && self.state.seed == seed
    }

    /// Well-formedness of one live escrow: the demand is positive, custody is
    /// non-empty, the vault holds the deposited asset, and the vault's
    /// controlling authority is exactly what derivation yields for the
    /// record's seed tuple, with the recorded bump byte.
    pub open spec fn wf(self) -> bool {
        &&& self.state.amount_require > 0
        &&& self.vault.amount > 0
        &&& self.vault.mint == self.state.mint_a
        &&& self.vault.controlled_by(self.state)
    }

}

/// All live escrows. Terminal records are simply absent: once a vault is
/// decommissioned nothing of the escrow remains to operate on.
#[derive(Debug)]
pub struct EscrowLedger {
    pub escrows: Vec<PendingEscrow>,
}

impl EscrowLedger {
    /// Keys are unique: at most one live escrow per depositor and nonce.
    pub open spec fn wf(self) -> bool {
        forall|i: int, j: int|
            0 <= i < j < self.escrows@.len() ==> !self.escrows@[j].keyed(
                self.escrows@[i].state.maker,
                self.escrows@[i].state.seed,
            )
    }

    /// Full invariant: unique keys and every live escrow well formed.
    pub open spec fn inv(self) -> bool {
        &&& self.wf()
        &&& forall|i: int| 0 <= i < self.escrows@.len() ==> self.escrows@[i].wf()
    }

    /// Whether a live escrow with this key exists.
    pub open spec fn live(self, maker: u64, seed: u64) -> bool {
        exists|i: int| 0 <= i < self.escrows@.len() && self.escrows@[i].keyed(maker, seed)
    }

    /// Position of the live escrow with this key.
    pub open spec fn idx_of(self, maker: u64, seed: u64) -> int {
        choose|i: int| 0 <= i < self.escrows@.len() && self.escrows@[i].keyed(maker, seed)
    }

    /// The live escrow with this key.
    pub open spec fn record_of(self, maker: u64, seed: u64) -> PendingEscrow {
        self.escrows@[self.idx_of(maker, seed)]
    }

    /// Under unique keys, any position whose entry carries the key is the
    /// position of the record.
    pub proof fn lemma_idx_unique(self, maker: u64, seed: u64, i: int)
        requires
            self.wf(),
            0 <= i < self.escrows@.len(),
            self.escrows@[i].keyed(maker, seed),
        ensures
            self.idx_of(maker, seed) == i,
            self.live(maker, seed),
            self.record_of(maker, seed) == self.escrows@[i],
    {
        assert(self.live(maker, seed));
        let j = self.idx_of(maker, seed);
        assert(0 <= j < self.escrows@.len() && self.escrows@[j].keyed(maker, seed));
        if i < j {
            assert(!self.escrows@[j].keyed(self.escrows@[i].state.maker, self.escrows@[i].state.seed));
        } else if j < i {
            assert(!self.escrows@[i].keyed(self.escrows@[j].state.maker, self.escrows@[j].state.seed));
        }
    }

    /// Removing the record at one key leaves every other key's liveness and
    /// record untouched.
    pub proof fn lemma_remove_preserves_others(self, after: EscrowLedger, maker: u64, seed: u64)
        requires
            self.wf(),
            self.live(maker, seed),
            after.escrows@ == self.escrows@.remove(self.idx_of(maker, seed)),
        ensures
            after.wf(),
            !after.live(maker, seed),
            forall|m: u64, s: u64|
                !(m == maker && s == seed) ==> after.live(m, s) == self.live(m, s),
            forall|m: u64, s: u64|
                !(m == maker && s == seed) && self.live(m, s) ==> after.record_of(m, s)
                    == self.record_of(m, s),
            self.inv() ==> after.inv(),
    {
        let idx = self.idx_of(maker, seed);
        let pre = self.escrows@;
        let post = after.escrows@;
        assert(0 <= idx < pre.len());
        assert forall|k: int| 0 <= k < post.len() implies post[k] == pre[if k < idx {
            k
        } else {
            k + 1
        }] by {
            assert(post == pre.remove(idx));
        }
        assert(after.wf()) by {
            assert forall|i: int, j: int| 0 <= i < j < post.len() implies !post[j].keyed(
                post[i].state.maker,
                post[i].state.seed,
            ) by {
                let pi: int = if i < idx { i } else { i + 1 };
                let pj: int = if j < idx { j } else { j + 1 };
                assert(post[i] == pre[pi] && post[j] == pre[pj]);
                assert(0 <= pi < pj < pre.len());
            }
        }
        assert(!after.live(maker, seed)) by {
            if after.live(maker, seed) {
                let k = choose|k: int| 0 <= k < post.len() && post[k].keyed(maker, seed);
                let pk: int = if k < idx { k } else { k + 1 };
                assert(pre[pk].keyed(maker, seed));
                self.lemma_idx_unique(maker, seed, pk);
                assert(pk == idx);
                assert(false);
            }
        }
        assert forall|m: u64, s: u64| !(m == maker && s == seed) implies after.live(m, s)
            == self.live(m, s) && (self.live(m, s) ==> after.record_of(m, s) == self.record_of(
            m,
            s,
        )) by {
            if after.live(m, s) {
                let k = choose|k: int| 0 <= k < post.len() && post[k].keyed(m, s);
                let pk: int = if k < idx { k } else { k + 1 };
                assert(pre[pk].keyed(m, s));
                assert(self.live(m, s));
            }
            if self.live(m, s) {
                let k = self.idx_of(m, s);
                assert(0 <= k < pre.len() && pre[k].keyed(m, s));
                self.lemma_idx_unique(maker, seed, idx);
                assert(k != idx) by {
                    if k == idx {
                        assert(pre[idx].keyed(maker, seed) && pre[idx].keyed(m, s));
                    }
                }
                let nk: int = if k < idx { k } else { k - 1 };
                assert(post[nk] == pre[k]);
                assert(after.live(m, s));
                after.lemma_idx_unique(m, s, nk);
                self.lemma_idx_unique(m, s, k);
                assert(after.record_of(m, s) == post[nk]);
            }
        }
        if self.inv() {
            assert forall|i: int| 0 <= i < post.len() implies post[i].wf() by {
                let pi: int = if i < idx { i } else { i + 1 };
                assert(post[i] == pre[pi]);
            }
        }
    }

    /// Appending a fresh key leaves every other key's liveness and record
    /// untouched, and makes the fresh key live with exactly the new pair.
    pub proof fn lemma_push_preserves_others(self, after: EscrowLedger, pe: PendingEscrow)
        requires
            self.wf(),
            !self.live(pe.state.maker, pe.state.seed),
            after.escrows@ == self.escrows@.push(pe),
        ensures
            after.wf(),
            after.live(pe.state.maker, pe.state.seed),
            after.record_of(pe.state.maker, pe.state.seed) == pe,
            forall|m: u64, s: u64|
                !(m == pe.state.maker && s == pe.state.seed) ==> after.live(m, s) == self.live(m, s),
            forall|m: u64, s: u64|
                !(m == pe.state.maker && s == pe.state.seed) && self.live(m, s)
                    ==> after.record_of(m, s) == self.record_of(m, s),
            self.inv() && pe.wf() ==> after.inv(),
    {
        let pre = self.escrows@;
        let post = after.escrows@;
        let n = pre.len() as int;
        assert(post.len() == n + 1 && post[n] == pe);
        assert(after.wf()) by {
            assert forall|i: int, j: int| 0 <= i < j < post.len() implies !post[j].keyed(
                post[i].state.maker,
                post[i].state.seed,
            ) by {
                if j < n {
                    assert(post[i] == pre[i] && post[j] == pre[j]);
                } else {
                    assert(post[i] == pre[i] && post[j] == pe);
                    if pe.keyed(post[i].state.maker, post[i].state.seed) {
                        assert(pre[i].keyed(pe.state.maker, pe.state.seed));
                        assert(self.live(pe.state.maker, pe.state.seed));
                    }
                }
            }
        }
        after.lemma_idx_unique(pe.state.maker, pe.state.seed, n);
        assert forall|m: u64, s: u64| !(m == pe.state.maker && s == pe.state.seed) implies
            after.live(m, s) == self.live(m, s) && (self.live(m, s) ==> after.record_of(m, s)
                == self.record_of(m, s)) by {
            if after.live(m, s) {
                let k = choose|k: int| 0 <= k < post.len() && post[k].keyed(m, s);
                if k < n {
                    assert(pre[k].keyed(m, s));
                    assert(self.live(m, s));
                } else {
                    assert(post[k] == pe);
                    assert(false);
                }
            }
            if self.live(m, s) {
                let k = self.idx_of(m, s);
                assert(0 <= k < n && pre[k].keyed(m, s));
                assert(post[k] == pre[k]);
                assert(after.live(m, s));
                after.lemma_idx_unique(m, s, k);
                self.lemma_idx_unique(m, s, k);
            }
        }
        if self.inv() && pe.wf() {
            assert forall|i: int| 0 <= i < post.len() implies post[i].wf() by {
                if i < n {
                    assert(post[i] == pre[i]);
                } else {
                    assert(post[i] == pe);
                }
            }
        }
    }

    /// A ledger with no live escrows.
    pub fn new() -> (l: EscrowLedger)
        ensures
            l.inv(),
            l.escrows@.len() == 0,
            forall|m: u64, s: u64| !l.live(m, s),
    {
        EscrowLedger { escrows: Vec::new() }
    }

    /// Number of live escrows.
    pub fn len(&self) -> (n: usize)
        ensures
            n == self.escrows@.len(),
    {
        self.escrows.len()
    }

    /// Finds the position of the live escrow for this key, if any.
    pub fn find(&self, maker: u64, seed: u64) -> (r: Option<usize>)
        requires
            self.wf(),
        ensures
            match r {
                Some(i) => self.live(maker, seed) && i == self.idx_of(maker, seed)
                    && i < self.escrows@.len() && self.escrows@[i as int].keyed(maker, seed),
                None => !self.live(maker, seed),
            },
    {
        let n = self.escrows.len();
        let mut i: usize = 0;
        while i < n
            invariant
                self.wf(),
                n == self.escrows@.len(),
                i <= n,
                forall|j: int| 0 <= j < i ==> !self.escrows@[j].keyed(maker, seed),
            decreases n - i,
        {
            if self.escrows[i].state.maker == maker && self.escrows[i].state.seed == seed {
                proof {
                    self.lemma_idx_unique(maker, seed, i as int);
                }
                return Some(i);
            }
            i = i + 1;
        }
        proof {
            if self.live(maker, seed) {
                let k = self.idx_of(maker, seed);
                assert(0 <= k < n && self.escrows@[k].keyed(maker, seed));
            }
        }
        None
    }

    /// Whether a live escrow with this key exists.
    pub fn is_live(&self, maker: u64, seed: u64) -> (r: bool)
        requires
            self.wf(),
        ensures
            r == self.live(maker, seed),
    {
        match self.find(maker, seed) {
            Some(_) => true,
            None => false,
        }
    }

    /// The current vault balance of the live escrow with this key.
    pub fn vault_balance(&self, maker: u64, seed: u64) -> (r: Option<u64>)
        requires
            self.wf(),
        ensures
            match r {
                Some(b) => self.live(maker, seed) && b == self.record_of(maker, seed).vault.amount,
                None => !self.live(maker, seed),
            },
    {
        match self.find(maker, seed) {
            Some(i) => Some(self.escrows[i].vault.amount),
            None => None,
        }
    }

    /// A copy of the record of the live escrow with this key.
    pub fn record(&self, maker: u64, seed: u64) -> (r: Option<EscrowState>)
        requires
            self.wf(),
        ensures
            match r {
                Some(st) => self.live(maker, seed) && st == self.record_of(maker, seed).state,
                None => !self.live(maker, seed),
            },
    {
        match self.find(maker, seed) {
            Some(i) => Some(self.escrows[i].state),
            None => None,
        }
    }
}

} // verus!
