//! Runs of the ledger, and what holds at the end of every run.

use vstd::prelude::*;

use crate::counter::Counter;
use crate::system::{Config, Pallet};

verus! {

/// One successful mutation of a ledger, with the account as its view.
pub enum Mutation<K> {
    /// `inc_block_number` succeeded.
    AdvanceBlock,
    /// `inc_nonce` succeeded for this account.
    IncrementNonce(K),
}

/// The number of block advances in `ops`.
pub open spec fn advance_count<K>(ops: Seq<Mutation<K>>) -> nat
    decreases ops.len(),
{
    if ops.len() == 0 {
        0
    } else {
        advance_count(ops.drop_last()) + if ops.last() is AdvanceBlock {
            1nat
        } else {
            0nat
        }
    }
}

/// The number of nonce increments of account `a` in `ops`.
pub open spec fn increment_count<K>(ops: Seq<Mutation<K>>, a: K) -> nat
    decreases ops.len(),
{
    if ops.len() == 0 {
        0
    } else {
        increment_count(ops.drop_last(), a) + if ops.last() == Mutation::IncrementNonce(a) {
            1nat
        } else {
            0nat
        }
    }
}

impl<T: Config> Pallet<T> {
    /// `post` is `self` after the mutation `op`, as `inc_block_number` and
    /// `inc_nonce` state it when they succeed.
    pub open spec fn applies(
        &self,
        op: Mutation<<T::AccountId as View>::V>,
        post: &Self,
    ) -> bool {
        match op {
            Mutation::AdvanceBlock => self.block_advanced(post),
            Mutation::IncrementNonce(who) => self.nonce_incremented(post, who),
        }
    }

    /// `states` is a run of the ledger: each state follows from the one before
    /// by the mutation of the same index in `ops`.
    pub open spec fn is_run(
        states: Seq<Self>,
        ops: Seq<Mutation<<T::AccountId as View>::V>>,
    ) -> bool {
        &&& states.len() == ops.len() + 1
        &&& forall|i: int| 0 <= i < ops.len() ==> #[trigger] states[i].applies(ops[i], &states[i + 1])
    }

    /// A run without its last step is a run.
    proof fn lemma_run_prefix(states: Seq<Self>, ops: Seq<Mutation<<T::AccountId as View>::V>>)
        requires
            Self::is_run(states, ops),
            ops.len() > 0,
        ensures
            Self::is_run(states.drop_last(), ops.drop_last()),
    {
        let ps = states.drop_last();
        let po = ops.drop_last();
        assert forall|i: int| 0 <= i < po.len() implies #[trigger] ps[i].applies(po[i], &ps[i + 1]) by {
            assert(states[i].applies(ops[i], &states[i + 1]));
        }
    }

    /// Block monotonicity: after a run, the block number has grown by exactly
    /// the number of block advances in it; from a fresh ledger it equals that
    /// number.
    pub proof fn lemma_block_count(states: Seq<Self>, ops: Seq<Mutation<<T::AccountId as View>::V>>)
        requires
            Self::is_run(states, ops),
        ensures
            states.last().spec_block_number() == states[0].spec_block_number() + advance_count(ops),
            states[0].is_initial() ==> states.last().spec_block_number() == advance_count(ops),
        decreases ops.len(),
    {
        if ops.len() > 0 {
            Self::lemma_run_prefix(states, ops);
            Self::lemma_block_count(states.drop_last(), ops.drop_last());
            let k = ops.len() - 1;
            assert(states[k].applies(ops[k], &states[k + 1]));
        }
    }

    /// Nonce monotonicity and isolation: after a run, the nonce of each account
    /// has grown by exactly the number of increments of that account, whatever
    /// other accounts were incremented; from a fresh ledger it equals that number.
    pub proof fn lemma_nonce_count(
        states: Seq<Self>,
        ops: Seq<Mutation<<T::AccountId as View>::V>>,
        a: <T::AccountId as View>::V,
    )
        requires
            Self::is_run(states, ops),
        ensures
            states.last().spec_nonce(a) == states[0].spec_nonce(a) + increment_count(ops, a),
            states[0].is_initial() ==> states.last().spec_nonce(a) == increment_count(ops, a),
        decreases ops.len(),
    {
        if ops.len() > 0 {
            Self::lemma_run_prefix(states, ops);
            Self::lemma_nonce_count(states.drop_last(), ops.drop_last(), a);
            let k = ops.len() - 1;
            assert(states[k].applies(ops[k], &states[k + 1]));
        }
    }

    /// Default zero: on a run from a fresh ledger that never increments `a`,
    /// the nonce of `a` is zero in every state, whatever else the run does.
    pub proof fn lemma_untouched_account(
        states: Seq<Self>,
        ops: Seq<Mutation<<T::AccountId as View>::V>>,
        a: <T::AccountId as View>::V,
    )
        requires
            Self::is_run(states, ops),
            states[0].is_initial(),
            forall|i: int| 0 <= i < ops.len() ==> ops[i] != Mutation::IncrementNonce(a),
        ensures
            forall|k: int| 0 <= k < states.len() ==> #[trigger] states[k].spec_nonce(a) == 0,
        decreases ops.len(),
    {
        if ops.len() > 0 {
            Self::lemma_run_prefix(states, ops);
            Self::lemma_untouched_account(states.drop_last(), ops.drop_last(), a);
            let k = ops.len() - 1;
            assert(states[k].applies(ops[k], &states[k + 1]));
            assert forall|j: int| 0 <= j < states.len() implies #[trigger] states[j].spec_nonce(a)
                == 0 by {
                if j < k + 1 {
                    assert(states.drop_last()[j] == states[j]);
                } else {
                    assert(states.drop_last()[k] == states[k]);
                    assert(states.drop_last()[k].spec_nonce(a) == 0);
                    assert(ops[k] != Mutation::IncrementNonce(a));
                }
            }
        }
    }

    /// Idempotent read: the block number that `block_number` returns is fixed
    /// by the ledger, so two reads without a mutation between them agree.
    pub proof fn lemma_block_number_read(&self, r1: T::BlockNumber, r2: T::BlockNumber)
        requires
            r1.value() == self.spec_block_number(),
            r2.value() == self.spec_block_number(),
        ensures
            r1 == r2,
    {
        r1.lemma_value_injective(&r2);
    }

    /// Idempotent read: the nonce that `get_nonce` returns for an account is
    /// fixed by the ledger, so two reads without a mutation between them agree.
    pub proof fn lemma_nonce_read(&self, a: <T::AccountId as View>::V, r1: T::Nonce, r2: T::Nonce)
        requires
            r1.value() == self.spec_nonce(a),
            r2.value() == self.spec_nonce(a),
        ensures
            r1 == r2,
    {
        r1.lemma_value_injective(&r2);
    }
}

} // verus!
