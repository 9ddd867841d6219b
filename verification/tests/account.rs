use staking::{AccountId, StakeLedger};

fn account_with(index: usize, byte: u8) -> AccountId {
    let mut bytes = [0u8; 32];
    bytes[index] = byte;
    AccountId(bytes)
}

#[test]
fn accounts_with_the_same_bytes_are_equal() {
    assert_eq!(AccountId([7u8; 32]), AccountId([7u8; 32]));
    assert_eq!(AccountId([0u8; 32]), account_with(5, 0));
    assert!(AccountId([255u8; 32]) == AccountId([255u8; 32]));
}

#[test]
fn accounts_differ_when_any_single_byte_differs() {
    let zero = AccountId([0u8; 32]);
    for index in 0..32 {
        assert_ne!(zero, account_with(index, 1));
        assert_ne!(account_with(index, 1), zero);
        assert_ne!(account_with(index, 1), account_with(index, 2));
    }
    assert_ne!(account_with(0, 1), account_with(31, 1));
}

#[test]
fn account_from_bytes_keeps_the_bytes() {
    let mut bytes = [0u8; 32];
    for (index, byte) in bytes.iter_mut().enumerate() {
        *byte = index as u8;
    }
    let account = AccountId::from(bytes);
    assert_eq!(account.0, bytes);
    assert_eq!(account, AccountId(bytes));
}

#[test]
fn accounts_that_differ_in_the_last_byte_have_separate_entries() {
    let first = account_with(31, 1);
    let second = account_with(31, 2);
    let mut ledger = StakeLedger::new();
    ledger.store(first, 10);
    ledger.store(second, 20);
    assert_eq!(ledger.get(first), Some(10));
    assert_eq!(ledger.get(second), Some(20));
    assert_eq!(ledger.len(), 2);
}
