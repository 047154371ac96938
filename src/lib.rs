//! A minimal system-state ledger: a block counter that never wraps and a
//! per-account nonce table in which every account starts at zero.

pub mod account;
pub mod counter;
pub mod laws;
pub mod system;

pub use account::AccountKey;
pub use counter::Counter;
pub use laws::Mutation;
pub use system::{Config, LedgerError, Pallet};
