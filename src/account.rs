//! Account identifiers.

use vstd::prelude::*;

verus! {

/// An account identifier: compared and copied by its view, which is what the
/// ledger's contracts speak of.
pub trait AccountKey: View + Sized {
    /// Whether `self` and `other` name the same account.
    fn same_account(&self, other: &Self) -> (r: bool)
        ensures
            r == (self@ == other@),
    ;

    /// A copy of the identifier.
    fn duplicate(&self) -> (r: Self)
        ensures
            r@ == self@,
    ;
}

impl AccountKey for String {
    fn same_account(&self, other: &String) -> (r: bool) {
        *self == *other
    }

    fn duplicate(&self) -> (r: String) {
        self.clone()
    }
}

impl AccountKey for u32 {
    fn same_account(&self, other: &u32) -> (r: bool) {
        *self == *other
    }

    fn duplicate(&self) -> (r: u32) {
        *self
    }
}

impl AccountKey for u64 {
    fn same_account(&self, other: &u64) -> (r: bool) {
        *self == *other
    }

    fn duplicate(&self) -> (r: u64) {
        *self
    }
}

} // verus!
