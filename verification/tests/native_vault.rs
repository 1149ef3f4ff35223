use vault::native::{NativeVault, Phase, ReserveParams, RECORD_SIZE};
use vault::VaultError;

fn params() -> ReserveParams {
    ReserveParams { reserve_base: 1_000_000, reserve_per_byte: 10 }
}

fn fresh_vault(owner_balance: u64) -> NativeVault {
    NativeVault::new(vec![1u8; 32], vec![2u8; 32], owner_balance)
}

fn derived_addresses(v: &NativeVault) -> (Vec<u8>, Vec<u8>) {
    let tag_s = vault::derivation::tag_state();
    let (record_addr, _) =
        vault::derivation::derive(&tag_s, &v.owner, &v.program_id).expect("record derivation");
    let tag_v = vault::derivation::tag_vault();
    let (custody_addr, _) =
        vault::derivation::derive(&tag_v, &record_addr, &v.program_id).expect("vault derivation");
    (record_addr, custody_addr)
}

#[test]
fn minimum_reserve_formula() {
    let p = params();
    assert_eq!(p.minimum_reserve(0), 1_000_000);
    assert_eq!(p.minimum_reserve(RECORD_SIZE), 1_000_100);
}

#[test]
fn initialize_funds_custody_with_exact_reserve() {
    let p = params();
    let mut v = fresh_vault(10_000_000);
    assert_eq!(v.current_phase(), Phase::Uninitialized);
    v.initialize(&p).expect("initialize");
    assert_eq!(v.current_phase(), Phase::Active);
    assert_eq!(v.custody_balance, 1_000_000);
    assert_eq!(v.owner_balance, 10_000_000 - 1_000_000 - 1_000_100);
    assert_eq!(v.record_reserve, 1_000_100);
}

#[test]
fn initialize_without_funds_fails_unchanged() {
    let p = params();
    let mut v = fresh_vault(100);
    assert_eq!(v.initialize(&p), Err(VaultError::InsufficientBalance));
    assert_eq!(v.current_phase(), Phase::Uninitialized);
    assert_eq!(v.owner_balance, 100);
    assert_eq!(v.custody_balance, 0);
}

#[test]
fn second_initialize_fails_already_initialized() {
    let p = params();
    let mut v = fresh_vault(10_000_000);
    v.initialize(&p).expect("first initialize");
    let owner_before = v.owner_balance;
    let custody_before = v.custody_balance;
    assert_eq!(v.initialize(&p), Err(VaultError::AlreadyInitialized));
    assert_eq!(v.owner_balance, owner_before);
    assert_eq!(v.custody_balance, custody_before);
    assert_eq!(v.current_phase(), Phase::Active);
}

#[test]
fn deposit_moves_exact_amount() {
    let p = params();
    let mut v = fresh_vault(10_000_000);
    v.initialize(&p).expect("initialize");
    let (record_addr, custody_addr) = derived_addresses(&v);
    let owner_before = v.owner_balance;
    let custody_before = v.custody_balance;
    v.deposit(&record_addr, &custody_addr, 500_000).expect("deposit");
    assert_eq!(v.owner_balance, owner_before - 500_000);
    assert_eq!(v.custody_balance, custody_before + 500_000);
}

#[test]
fn zero_deposit_is_accepted() {
    let p = params();
    let mut v = fresh_vault(10_000_000);
    v.initialize(&p).expect("initialize");
    let (record_addr, custody_addr) = derived_addresses(&v);
    let custody_before = v.custody_balance;
    v.deposit(&record_addr, &custody_addr, 0).expect("zero deposit");
    assert_eq!(v.custody_balance, custody_before);
}

#[test]
fn deposit_before_initialize_fails() {
    let mut v = fresh_vault(10_000_000);
    let record_addr = vec![3u8; 32];
    let custody_addr = vec![4u8; 32];
    assert_eq!(
        v.deposit(&record_addr, &custody_addr, 1),
        Err(VaultError::NotInitialized)
    );
}

#[test]
fn deposit_with_wrong_address_fails() {
    let p = params();
    let mut v = fresh_vault(10_000_000);
    v.initialize(&p).expect("initialize");
    let (record_addr, custody_addr) = derived_addresses(&v);
    let wrong = vec![9u8; 32];
    assert_eq!(
        v.deposit(&wrong, &custody_addr, 1),
        Err(VaultError::AddressMismatch)
    );
    assert_eq!(
        v.deposit(&record_addr, &wrong, 1),
        Err(VaultError::AddressMismatch)
    );
    assert_eq!(v.custody_balance, 1_000_000);
}

#[test]
fn deposit_over_wallet_balance_fails() {
    let p = params();
    let mut v = fresh_vault(3_000_000);
    v.initialize(&p).expect("initialize");
    let (record_addr, custody_addr) = derived_addresses(&v);
    let owner_before = v.owner_balance;
    assert_eq!(
        v.deposit(&record_addr, &custody_addr, owner_before + 1),
        Err(VaultError::InsufficientBalance)
    );
    assert_eq!(v.owner_balance, owner_before);
}

#[test]
fn withdraw_respects_minimum_reserve() {
    let p = params();
    let mut v = fresh_vault(10_000_000);
    v.initialize(&p).expect("initialize");
    let (record_addr, custody_addr) = derived_addresses(&v);
    v.deposit(&record_addr, &custody_addr, 500_000).expect("deposit");
    assert_eq!(v.custody_balance, 1_500_000);
    v.withdraw(&record_addr, &custody_addr, 500_000, &p).expect("withdraw");
    assert_eq!(v.custody_balance, 1_000_000);
    assert_eq!(
        v.withdraw(&record_addr, &custody_addr, 1, &p),
        Err(VaultError::InsufficientReserve)
    );
    assert_eq!(v.custody_balance, 1_000_000);
}

#[test]
fn withdraw_moves_exact_amount_to_owner() {
    let p = params();
    let mut v = fresh_vault(10_000_000);
    v.initialize(&p).expect("initialize");
    let (record_addr, custody_addr) = derived_addresses(&v);
    v.deposit(&record_addr, &custody_addr, 250_000).expect("deposit");
    let owner_before = v.owner_balance;
    let custody_before = v.custody_balance;
    v.withdraw(&record_addr, &custody_addr, 250_000, &p).expect("withdraw");
    assert_eq!(v.owner_balance, owner_before + 250_000);
    assert_eq!(v.custody_balance, custody_before - 250_000);
}

#[test]
fn withdraw_with_wrong_address_fails() {
    let p = params();
    let mut v = fresh_vault(10_000_000);
    v.initialize(&p).expect("initialize");
    let (record_addr, custody_addr) = derived_addresses(&v);
    let wrong = vec![7u8; 32];
    assert_eq!(
        v.withdraw(&wrong, &custody_addr, 0, &p),
        Err(VaultError::AddressMismatch)
    );
    assert_eq!(
        v.withdraw(&record_addr, &wrong, 0, &p),
        Err(VaultError::AddressMismatch)
    );
}

#[test]
fn close_refunds_allocation_and_is_terminal() {
    let p = params();
    let mut v = fresh_vault(10_000_000);
    v.initialize(&p).expect("initialize");
    let (record_addr, custody_addr) = derived_addresses(&v);
    v.deposit(&record_addr, &custody_addr, 500_000).expect("deposit");
    v.withdraw(&record_addr, &custody_addr, 500_000, &p).expect("withdraw");
    let owner_before = v.owner_balance;
    let custody_before = v.custody_balance;
    v.close(&record_addr).expect("close");
    assert_eq!(v.current_phase(), Phase::Closed);
    assert_eq!(v.owner_balance, owner_before + 1_000_100);
    assert_eq!(v.record_reserve, 0);
    assert_eq!(v.custody_balance, custody_before);
    assert_eq!(
        v.withdraw(&record_addr, &custody_addr, 0, &p),
        Err(VaultError::NotInitialized)
    );
}

#[test]
fn close_with_wrong_address_fails() {
    let p = params();
    let mut v = fresh_vault(10_000_000);
    v.initialize(&p).expect("initialize");
    let wrong = vec![8u8; 32];
    assert_eq!(v.close(&wrong), Err(VaultError::AddressMismatch));
    assert_eq!(v.current_phase(), Phase::Active);
}

#[test]
fn initialize_after_close_fails() {
    let p = params();
    let mut v = fresh_vault(10_000_000);
    v.initialize(&p).expect("initialize");
    let (record_addr, _) = derived_addresses(&v);
    v.close(&record_addr).expect("close");
    assert_eq!(v.initialize(&p), Err(VaultError::AlreadyInitialized));
    assert_eq!(v.current_phase(), Phase::Closed);
}

#[test]
fn close_before_initialize_fails() {
    let mut v = fresh_vault(10_000_000);
    let record_addr = vec![3u8; 32];
    assert_eq!(v.close(&record_addr), Err(VaultError::NotInitialized));
}
