use system_ledger::{Config, Counter, LedgerError, Pallet};

struct TestConfig;

impl Config for TestConfig {
    type AccountId = String;
    type BlockNumber = u32;
    type Nonce = u32;
}

/// A configuration with narrow counters, so that their limits are reachable.
struct NarrowConfig;

impl Config for NarrowConfig {
    type AccountId = u64;
    type BlockNumber = u16;
    type Nonce = u8;
}

#[test]
fn init_system() {
    let system: Pallet<TestConfig> = Pallet::new();
    assert_eq!(system.block_number(), 0);
}

#[test]
fn inc_block_number() {
    let mut system = Pallet::<TestConfig>::new();
    let alice = String::from("alice");
    system.inc_nonce(&alice).unwrap();
    system.inc_block_number().unwrap();
    assert_eq!(system.get_nonce(&alice), 1);
    assert_eq!(system.block_number(), 1);
}

#[test]
fn fresh_ledger_is_all_zero() {
    let system = Pallet::<TestConfig>::new();
    assert_eq!(system.block_number(), 0);
    assert_eq!(system.get_nonce(&String::from("alice")), 0);
    assert_eq!(system.get_nonce(&String::new()), 0);
}

#[test]
fn block_number_counts_advances() {
    let mut system = Pallet::<TestConfig>::new();
    for n in 1..=100u32 {
        assert_eq!(system.inc_block_number(), Ok(()));
        assert_eq!(system.block_number(), n);
    }
}

#[test]
fn nonces_count_per_account() {
    let mut system = Pallet::<TestConfig>::new();
    let alice = String::from("alice");
    let bob = String::from("bob");
    for _ in 0..3 {
        system.inc_nonce(&alice).unwrap();
    }
    system.inc_nonce(&bob).unwrap();
    system.inc_nonce(&alice).unwrap();
    system.inc_nonce(&bob).unwrap();
    assert_eq!(system.get_nonce(&alice), 4);
    assert_eq!(system.get_nonce(&bob), 2);
    assert_eq!(system.block_number(), 0);
}

#[test]
fn untouched_account_stays_zero() {
    let mut system = Pallet::<TestConfig>::new();
    let carol = String::from("carol");
    assert_eq!(system.get_nonce(&carol), 0);
    system.inc_nonce(&String::from("alice")).unwrap();
    system.inc_block_number().unwrap();
    system.inc_nonce(&String::from("dave")).unwrap();
    assert_eq!(system.get_nonce(&carol), 0);
}

#[test]
fn reads_repeat() {
    let mut system = Pallet::<TestConfig>::new();
    let alice = String::from("alice");
    system.inc_nonce(&alice).unwrap();
    system.inc_block_number().unwrap();
    assert_eq!(system.block_number(), system.block_number());
    assert_eq!(system.get_nonce(&alice), system.get_nonce(&alice));
}

#[test]
fn alice_one_block_one() {
    let mut system = Pallet::<TestConfig>::new();
    system.inc_nonce(&String::from("alice")).unwrap();
    system.inc_block_number().unwrap();
    assert_eq!(system.get_nonce(&String::from("alice")), 1);
    assert_eq!(system.block_number(), 1);
    assert_eq!(system.get_nonce(&String::from("bob")), 0);
}

#[test]
fn block_number_overflow_is_refused() {
    let mut system = Pallet::<NarrowConfig>::new();
    for _ in 0..u16::MAX {
        system.inc_block_number().unwrap();
    }
    assert_eq!(system.block_number(), u16::MAX);
    assert_eq!(system.inc_block_number(), Err(LedgerError::CounterOverflow));
    assert_eq!(system.block_number(), u16::MAX);
}

#[test]
fn nonce_overflow_is_refused() {
    let mut system = Pallet::<NarrowConfig>::new();
    for _ in 0..u8::MAX {
        system.inc_nonce(&9).unwrap();
    }
    assert_eq!(system.get_nonce(&9), u8::MAX);
    assert_eq!(system.inc_nonce(&9), Err(LedgerError::NonceOverflow));
    assert_eq!(system.get_nonce(&9), u8::MAX);
    assert_eq!(system.inc_nonce(&10), Ok(()));
    assert_eq!(system.get_nonce(&10), 1);
}

#[test]
fn counter_try_add() {
    assert_eq!(<u32 as Counter>::zero(), 0);
    assert_eq!(<u32 as Counter>::one(), 1);
    assert_eq!(Counter::try_add(&40u32, &2u32), Some(42));
    assert_eq!(Counter::try_add(&u32::MAX, &1u32), None);
    assert_eq!(Counter::try_add(&200u8, &55u8), Some(255));
    assert_eq!(Counter::try_add(&200u8, &56u8), None);
    assert_eq!(Counter::try_add(&65535u16, &0u16), Some(65535));
    assert_eq!(Counter::try_add(&u64::MAX, &1u64), None);
    assert_eq!(Counter::try_add(&7u64, &8u64), Some(15));
}
