//! The system ledger: the current block number and the nonce of each account.

use vstd::prelude::*;

use crate::account::AccountKey;
use crate::counter::Counter;

verus! {

/// The types a ledger is built from.
pub trait Config {
    /// Identifies an account.
    type AccountId: AccountKey;
    /// Counts blocks.
    type BlockNumber: Counter;
    /// Counts an account's transactions.
    type Nonce: Counter;
}

/// Why a mutation of the ledger was refused.
#[derive(Clone, Copy, Debug, PartialEq, Eq, Structural)]
pub enum LedgerError {
    /// The block number is already the largest value its type can hold.
    CounterOverflow,
    /// The account's nonce is already the largest value its type can hold.
    NonceOverflow,
}

/// The block number and the nonce table of one chain.
pub struct Pallet<T: Config> {
    block_number: T::BlockNumber,
    /// One entry per account whose nonce has been raised; no account twice.
    nonce: Vec<(T::AccountId, T::Nonce)>,
}

impl<T: Config> Pallet<T> {
    /// Well-formed: the table holds no account twice.
    pub closed spec fn wf(&self) -> bool {
        forall|i: int, j: int|
            0 <= i < self.nonce.len() && 0 <= j < self.nonce.len() && i != j
                ==> self.nonce[i].0@ != self.nonce[j].0@
    }

    /// The current block number.
    pub closed spec fn spec_block_number(&self) -> nat {
        self.block_number.value()
    }

    /// The nonce of account `a`: its entry in the table, or zero where it has none.
    pub closed spec fn spec_nonce(&self, a: <T::AccountId as View>::V) -> nat {
        if exists|i: int| 0 <= i < self.nonce.len() && self.nonce[i].0@ == a {
            let i = choose|i: int| 0 <= i < self.nonce.len() && self.nonce[i].0@ == a;
            self.nonce[i].1.value()
        } else {
            0
        }
    }

    /// Block number zero, and every account at nonce zero.
    pub open spec fn is_initial(&self) -> bool {
        &&& self.spec_block_number() == 0
        &&& forall|a: <T::AccountId as View>::V| #[trigger] self.spec_nonce(a) == 0
    }

    /// `post` is `self` with the block number one higher.
    pub open spec fn block_advanced(&self, post: &Self) -> bool {
        &&& post.spec_block_number() == self.spec_block_number() + 1
        &&& forall|a: <T::AccountId as View>::V| #[trigger]
            post.spec_nonce(a) == self.spec_nonce(a)
    }

    /// `post` is `self` with the nonce of `who` one higher.
    pub open spec fn nonce_incremented(&self, post: &Self, who: <T::AccountId as View>::V) -> bool {
        &&& post.spec_block_number() == self.spec_block_number()
        &&& post.spec_nonce(who) == self.spec_nonce(who) + 1
        &&& forall|a: <T::AccountId as View>::V|
            a != who ==> #[trigger] post.spec_nonce(a) == self.spec_nonce(a)
    }

    /// The nonce stored in entry `i` is the nonce of that entry's account.
    proof fn lemma_entry_nonce(&self, i: int)
        requires
            self.wf(),
            0 <= i < self.nonce.len(),
        ensures
            self.spec_nonce(self.nonce[i].0@) == self.nonce[i].1.value(),
    {
        let a = self.nonce[i].0@;
        assert(0 <= i < self.nonce.len() && self.nonce[i].0@ == a);
        let j = choose|j: int| 0 <= j < self.nonce.len() && self.nonce[j].0@ == a;
        assert(j == i);
    }

    /// Where `post` differs from `pre` only at entry `i` (changed or appended),
    /// every other account keeps its nonce.
    proof fn lemma_other_entries(pre: Self, post: Self, i: int, a: <T::AccountId as View>::V)
        requires
            pre.wf(),
            post.wf(),
            0 <= i < post.nonce.len(),
            pre.nonce.len() <= post.nonce.len() <= pre.nonce.len() + 1,
            i < pre.nonce.len() ==> pre.nonce[i].0@ == post.nonce[i].0@,
            i == pre.nonce.len() ==> post.nonce.len() == pre.nonce.len() + 1,
            i < pre.nonce.len() ==> post.nonce.len() == pre.nonce.len(),
            forall|j: int| 0 <= j < pre.nonce.len() && j != i ==> post.nonce[j] == pre.nonce[j],
            post.nonce[i].0@ != a,
        ensures
            post.spec_nonce(a) == pre.spec_nonce(a),
    {
        if exists|j: int| 0 <= j < post.nonce.len() && post.nonce[j].0@ == a {
            let j = choose|j: int| 0 <= j < post.nonce.len() && post.nonce[j].0@ == a;
            post.lemma_entry_nonce(j);
            pre.lemma_entry_nonce(j);
        } else {
            assert forall|j: int| 0 <= j < pre.nonce.len() implies pre.nonce[j].0@ != a by {
                if j != i {
                    assert(post.nonce[j] == pre.nonce[j]);
                }
            }
        }
    }

    /// A fresh ledger: block number zero and an empty nonce table.
    pub fn new() -> (r: Self)
        ensures
            r.wf(),
            r.is_initial(),
    {
        Pallet { block_number: T::BlockNumber::zero(), nonce: Vec::new() }
    }

    /// Raises the block number by one; refuses where it would overflow, and
    /// then leaves the ledger as it was.
    pub fn inc_block_number(&mut self) -> (r: Result<(), LedgerError>)
        requires
            old(self).wf(),
        ensures
            final(self).wf(),
            r is Ok <==> old(self).spec_block_number() < T::BlockNumber::max_value(),
            r is Ok ==> old(self).block_advanced(final(self)),
            r is Err ==> r == Err::<(), LedgerError>(LedgerError::CounterOverflow) && *final(self)
                == *old(self),
    {
        let one = T::BlockNumber::one();
        match self.block_number.try_add(&one) {
            Some(next) => {
                let ghost pre = *self;
                self.block_number = next;
                assert(self.nonce == pre.nonce);
                Ok(())
            },
            None => Err(LedgerError::CounterOverflow),
        }
    }

    /// The index of the entry of `who`, if the table holds one.
    fn position(&self, who: &T::AccountId) -> (r: Option<usize>)
        ensures
            r matches Some(i) ==> i < self.nonce.len() && self.nonce[i as int].0@ == who@,
            r is None ==> forall|i: int| 0 <= i < self.nonce.len() ==> self.nonce[i].0@ != who@,
    {
        let mut i: usize = 0;
        while i < self.nonce.len()
            invariant
                i <= self.nonce.len(),
                forall|j: int| 0 <= j < i ==> self.nonce[j].0@ != who@,
            decreases self.nonce.len() - i,
        {
            if self.nonce[i].0.same_account(who) {
                return Some(i);
            }
            i = i + 1;
        }
        None
    }

    /// Raises the nonce of `who` by one. Like the block number, a nonce never
    /// wraps: where it would overflow the call is refused and the ledger left
    /// as it was.
    pub fn inc_nonce(&mut self, who: &T::AccountId) -> (r: Result<(), LedgerError>)
        requires
            old(self).wf(),
        ensures
            final(self).wf(),
            r is Ok <==> old(self).spec_nonce(who@) < T::Nonce::max_value(),
            r is Ok ==> old(self).nonce_incremented(final(self), who@),
            r is Err ==> r == Err::<(), LedgerError>(LedgerError::NonceOverflow) && *final(self)
                == *old(self),
    {
        let ghost pre = *self;
        let one = T::Nonce::one();
        match self.position(who) {
            Some(i) => {
                proof {
                    self.lemma_entry_nonce(i as int);
                }
                match self.nonce[i].1.try_add(&one) {
                    Some(next) => {
                        let key = self.nonce[i].0.duplicate();
                        self.nonce.set(i, (key, next));
                        proof {
                            self.lemma_entry_nonce(i as int);
                            assert forall|a: <T::AccountId as View>::V|
                                a != who@ implies #[trigger] self.spec_nonce(a) == pre.spec_nonce(
                                a,
                            ) by {
                                Self::lemma_other_entries(pre, *self, i as int, a);
                            }
                        }
                        Ok(())
                    },
                    None => Err(LedgerError::NonceOverflow),
                }
            },
            None => {
                proof {
                    one.lemma_value_in_range();
                }
                self.nonce.push((who.duplicate(), one));
                proof {
                    self.lemma_entry_nonce(pre.nonce.len() as int);
                    assert forall|a: <T::AccountId as View>::V|
                        a != who@ implies #[trigger] self.spec_nonce(a) == pre.spec_nonce(a) by {
                        Self::lemma_other_entries(pre, *self, pre.nonce.len() as int, a);
                    }
                }
                Ok(())
            },
        }
    }

    /// The nonce of `who`: zero for an account whose nonce was never raised.
    pub fn get_nonce(&self, who: &T::AccountId) -> (r: T::Nonce)
        requires
            self.wf(),
        ensures
            r.value() == self.spec_nonce(who@),
    {
        match self.position(who) {
            Some(i) => {
                proof {
                    self.lemma_entry_nonce(i as int);
                }
                self.nonce[i].1
            },
            None => T::Nonce::zero(),
        }
    }

    /// The current block number.
    pub fn block_number(&self) -> (r: T::BlockNumber)
        ensures
            r.value() == self.spec_block_number(),
    {
        self.block_number
    }
}

} // verus!
