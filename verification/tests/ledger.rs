use staking::{AccountId, Overflow, StakeLedger, Underflow};

fn account(byte: u8) -> AccountId {
    AccountId([byte; 32])
}

#[test]
fn new_ledger_is_empty() {
    let ledger = StakeLedger::new();
    assert_eq!(ledger.len(), 0);
    assert_eq!(ledger.get(account(1)), None);
}

#[test]
fn store_then_get_returns_the_balance() {
    let mut ledger = StakeLedger::new();
    ledger.store(account(1), 100);
    assert_eq!(ledger.get(account(1)), Some(100));
    assert_eq!(ledger.get(account(2)), None);
    assert_eq!(ledger.len(), 1);
}

#[test]
fn store_overwrites_the_entry() {
    let mut ledger = StakeLedger::new();
    ledger.store(account(1), 100);
    ledger.store(account(1), 250);
    assert_eq!(ledger.get(account(1)), Some(250));
    assert_eq!(ledger.len(), 1);
}

#[test]
fn store_zero_removes_the_entry() {
    let mut ledger = StakeLedger::new();
    ledger.store(account(1), 100);
    ledger.store(account(1), 0);
    assert_eq!(ledger.get(account(1)), None);
    assert_eq!(ledger.len(), 0);
}

#[test]
fn store_zero_for_an_unknown_account_creates_nothing() {
    let mut ledger = StakeLedger::new();
    ledger.store(account(1), 0);
    assert_eq!(ledger.get(account(1)), None);
    assert_eq!(ledger.len(), 0);
    ledger.store(account(2), 5);
    ledger.store(account(1), 0);
    assert_eq!(ledger.get(account(2)), Some(5));
    assert_eq!(ledger.len(), 1);
}

#[test]
fn store_holds_the_largest_balance() {
    let mut ledger = StakeLedger::new();
    ledger.store(account(1), u128::MAX);
    assert_eq!(ledger.get(account(1)), Some(u128::MAX));
}

#[test]
fn removing_any_one_entry_keeps_the_others() {
    for gone in 1u8..=4 {
        let mut ledger = StakeLedger::new();
        for byte in 1u8..=4 {
            ledger.store(account(byte), 10 * byte as u128);
        }
        ledger.store(account(gone), 0);
        assert_eq!(ledger.len(), 3);
        for byte in 1u8..=4 {
            let expected = if byte == gone { None } else { Some(10 * byte as u128) };
            assert_eq!(ledger.get(account(byte)), expected);
        }
    }
}

#[test]
fn an_account_can_come_back_after_its_entry_was_removed() {
    let mut ledger = StakeLedger::new();
    ledger.store(account(1), 1);
    ledger.store(account(2), 2);
    ledger.store(account(1), 0);
    ledger.store(account(1), 3);
    assert_eq!(ledger.get(account(1)), Some(3));
    assert_eq!(ledger.get(account(2)), Some(2));
    assert_eq!(ledger.len(), 2);
}

#[test]
fn credit_without_an_entry_starts_from_zero() {
    let ledger = StakeLedger::new();
    assert_eq!(ledger.credit(account(1), 0), Ok(0));
    assert_eq!(ledger.credit(account(1), 42), Ok(42));
    assert_eq!(ledger.credit(account(1), u128::MAX), Ok(u128::MAX));
}

#[test]
fn credit_adds_to_the_entry_and_writes_nothing() {
    let mut ledger = StakeLedger::new();
    ledger.store(account(1), 100);
    assert_eq!(ledger.credit(account(1), 23), Ok(123));
    assert_eq!(ledger.get(account(1)), Some(100));
    assert_eq!(ledger.credit(account(2), 23), Ok(23));
    assert_eq!(ledger.get(account(2)), None);
}

#[test]
fn credit_fails_exactly_past_the_largest_balance() {
    let mut ledger = StakeLedger::new();
    ledger.store(account(1), u128::MAX - 5);
    assert_eq!(ledger.credit(account(1), 5), Ok(u128::MAX));
    assert_eq!(ledger.credit(account(1), 6), Err(Overflow));
    assert_eq!(ledger.credit(account(1), u128::MAX), Err(Overflow));
    assert_eq!(ledger.get(account(1)), Some(u128::MAX - 5));
}

#[test]
fn debit_takes_from_the_entry_and_writes_nothing() {
    let mut ledger = StakeLedger::new();
    ledger.store(account(1), 100);
    assert_eq!(ledger.debit(account(1), 40), Ok(60));
    assert_eq!(ledger.debit(account(1), 0), Ok(100));
    assert_eq!(ledger.debit(account(1), 100), Ok(0));
    assert_eq!(ledger.get(account(1)), Some(100));
}

#[test]
fn debit_fails_exactly_past_the_stake() {
    let mut ledger = StakeLedger::new();
    ledger.store(account(1), 100);
    assert_eq!(ledger.debit(account(1), 101), Err(Underflow));
    assert_eq!(ledger.debit(account(1), u128::MAX), Err(Underflow));
    assert_eq!(ledger.get(account(1)), Some(100));
}

#[test]
fn debit_without_an_entry_allows_only_zero() {
    let ledger = StakeLedger::new();
    assert_eq!(ledger.debit(account(1), 0), Ok(0));
    assert_eq!(ledger.debit(account(1), 1), Err(Underflow));
}

#[test]
fn len_counts_the_accounts_with_an_entry() {
    let mut ledger = StakeLedger::new();
    for byte in 0u8..20 {
        ledger.store(account(byte), 1 + byte as u128);
        assert_eq!(ledger.len(), byte as usize + 1);
    }
    for byte in 0u8..20 {
        ledger.store(account(byte), 0);
        assert_eq!(ledger.len(), 19 - byte as usize);
    }
}

#[test]
fn ledger_agrees_with_a_hash_map_over_many_stores() {
    let mut ledger = StakeLedger::new();
    let mut model: std::collections::HashMap<u8, u128> = std::collections::HashMap::new();
    let mut state: u64 = 0x2545_f491_4f6c_dd1d;
    for _ in 0..5000 {
        state = state.wrapping_mul(6364136223846793005).wrapping_add(1442695040888963407);
        let byte = ((state >> 33) % 24) as u8;
        let balance = ((state >> 40) % 4) as u128 * 1000;
        ledger.store(account(byte), balance);
        if balance == 0 {
            model.remove(&byte);
        } else {
            model.insert(byte, balance);
        }
        assert_eq!(ledger.len(), model.len());
        for other in 0u8..24 {
            assert_eq!(ledger.get(account(other)), model.get(&other).copied());
        }
    }
}
