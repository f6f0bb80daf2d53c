use fluxur_timelock::address::{address_with_bump, find_address, Address, Role};
use fluxur_timelock::timelock::{initialize_lock, withdraw, InitializeLock, LockAccount, TimelockError, Withdraw};

const RESERVE: u64 = 890_880;
const NOW: i64 = 1_700_000_000;

fn program() -> Address {
    Address { bytes: [7u8; 32] }
}

fn subject(name: &[u8]) -> Address {
    let mut bytes = [0u8; 32];
    bytes[..name.len()].copy_from_slice(name);
    Address { bytes }
}

fn payer() -> Address {
    Address { bytes: [42u8; 32] }
}

fn init_accounts(mint: &Address) -> InitializeLock {
    let (lock, _) = find_address(&program(), mint, Role::Lock).unwrap();
    let (vault, _) = find_address(&program(), mint, Role::Vault).unwrap();
    InitializeLock { payer: payer(), lock, vault }
}

fn created(mint: &Address, unlock_ts: i64) -> (InitializeLock, LockAccount) {
    let accounts = init_accounts(mint);
    let record = initialize_lock(&accounts, &program(), *mint, unlock_ts, NOW).unwrap();
    (accounts, record)
}

fn withdraw_accounts(init: &InitializeLock, record: LockAccount, vault_lamports: u64) -> Withdraw {
    Withdraw {
        caller: Address { bytes: [9u8; 32] },
        lock: init.lock,
        lock_record: record,
        vault: init.vault,
        vault_lamports,
        creator: init.payer,
    }
}

#[test]
fn scenario_abc_lock_opens_after_unlock_time() {
    let mint = subject(b"ABC");
    let (init, record) = created(&mint, NOW + 100);
    let mut accounts = withdraw_accounts(&init, record, 2 * RESERVE);
    assert_eq!(
        withdraw(&mut accounts, &program(), mint, NOW + 50, RESERVE),
        Err(TimelockError::LockNotExpired)
    );
    assert_eq!(accounts.vault_lamports, 2 * RESERVE);
    assert_eq!(withdraw(&mut accounts, &program(), mint, NOW + 150, RESERVE), Ok(RESERVE));
    assert_eq!(accounts.vault_lamports, RESERVE);
}

#[test]
fn derivation_is_deterministic() {
    let mint = subject(b"ABC");
    for role in [Role::Lock, Role::Vault] {
        let first = find_address(&program(), &mint, role);
        let second = find_address(&program(), &mint, role);
        assert!(first.is_some());
        assert_eq!(first, second);
    }
}

#[test]
fn lock_and_vault_addresses_differ() {
    let mint = subject(b"ABC");
    let (lock, _) = find_address(&program(), &mint, Role::Lock).unwrap();
    let (vault, _) = find_address(&program(), &mint, Role::Vault).unwrap();
    assert_ne!(lock, vault);
    assert_ne!(lock, mint);
    assert_ne!(vault, mint);
    assert_ne!(lock, program());
}

#[test]
fn different_subjects_get_different_addresses() {
    let a = subject(b"ABC");
    let b = subject(b"ABD");
    for role in [Role::Lock, Role::Vault] {
        let (x, _) = find_address(&program(), &a, role).unwrap();
        let (y, _) = find_address(&program(), &b, role).unwrap();
        assert_ne!(x, y);
    }
    let other_program = Address { bytes: [8u8; 32] };
    let (x, _) = find_address(&program(), &a, Role::Lock).unwrap();
    let (y, _) = find_address(&other_program, &a, Role::Lock).unwrap();
    assert_ne!(x, y);
}

#[test]
fn stored_bump_rederives_the_found_address() {
    let mint = subject(b"XYZ");
    for role in [Role::Lock, Role::Vault] {
        let (address, bump) = find_address(&program(), &mint, role).unwrap();
        assert_eq!(address_with_bump(&program(), &mint, role, bump), Some(address));
        let other = address_with_bump(&program(), &mint, role, bump.wrapping_add(1));
        assert_ne!(other, Some(address));
    }
}

#[test]
fn role_tags_are_ascii_names() {
    assert_eq!(Role::Lock.tag(), b"lock".to_vec());
    assert_eq!(Role::Vault.tag(), b"vault".to_vec());
}

#[test]
fn same_as_compares_every_byte() {
    let a = Address { bytes: [1u8; 32] };
    let mut b = a;
    assert!(a.same_as(&b));
    b.bytes[31] = 2;
    assert!(!a.same_as(&b));
    b.bytes[31] = 1;
    b.bytes[0] = 0;
    assert!(!a.same_as(&b));
}

#[test]
fn creation_rejects_unlock_time_now_or_past() {
    let mint = subject(b"ABC");
    let accounts = init_accounts(&mint);
    for t in [NOW, NOW - 1, 0, i64::MIN] {
        assert_eq!(
            initialize_lock(&accounts, &program(), mint, t, NOW),
            Err(TimelockError::UnlockTimeInPast)
        );
    }
}

#[test]
fn creation_records_payer_and_bumps() {
    let mint = subject(b"ABC");
    let accounts = init_accounts(&mint);
    let record = initialize_lock(&accounts, &program(), mint, NOW + 1, NOW).unwrap();
    let (_, lock_bump) = find_address(&program(), &mint, Role::Lock).unwrap();
    let (_, vault_bump) = find_address(&program(), &mint, Role::Vault).unwrap();
    assert_eq!(
        record,
        LockAccount { creator: payer(), mint, unlock_ts: NOW + 1, lock_bump, vault_bump }
    );
    let record = initialize_lock(&accounts, &program(), mint, i64::MAX, NOW).unwrap();
    assert_eq!(record.unlock_ts, i64::MAX);
}

#[test]
fn creator_is_always_the_payer() {
    let mint = subject(b"ABC");
    let mut accounts = init_accounts(&mint);
    accounts.payer = Address { bytes: [3u8; 32] };
    let record = initialize_lock(&accounts, &program(), mint, NOW + 10, NOW).unwrap();
    assert_eq!(record.creator, Address { bytes: [3u8; 32] });
}

#[test]
fn creation_rejects_accounts_not_derived_from_the_mint() {
    let mint = subject(b"ABC");
    let good = init_accounts(&mint);
    let swapped = InitializeLock { payer: good.payer, lock: good.vault, vault: good.lock };
    assert_eq!(
        initialize_lock(&swapped, &program(), mint, NOW + 10, NOW),
        Err(TimelockError::AddressMismatch)
    );
    let foreign = init_accounts(&subject(b"OTHER"));
    assert_eq!(
        initialize_lock(&foreign, &program(), mint, NOW + 10, NOW),
        Err(TimelockError::AddressMismatch)
    );
    let mut fake_vault = good;
    fake_vault.vault = payer();
    assert_eq!(
        initialize_lock(&fake_vault, &program(), mint, NOW - 10, NOW),
        Err(TimelockError::AddressMismatch)
    );
}

#[test]
fn withdraw_before_unlock_fails_for_any_destination() {
    let mint = subject(b"ABC");
    let (init, record) = created(&mint, NOW + 100);
    let mut accounts = withdraw_accounts(&init, record, 5 * RESERVE);
    accounts.creator = Address { bytes: [66u8; 32] };
    let before = accounts;
    assert_eq!(
        withdraw(&mut accounts, &program(), mint, NOW + 99, RESERVE),
        Err(TimelockError::LockNotExpired)
    );
    assert_eq!(accounts, before);
}

#[test]
fn withdraw_to_someone_else_fails() {
    let mint = subject(b"ABC");
    let (init, record) = created(&mint, NOW + 100);
    let mut accounts = withdraw_accounts(&init, record, 5 * RESERVE);
    accounts.creator = Address { bytes: [66u8; 32] };
    let before = accounts;
    assert_eq!(
        withdraw(&mut accounts, &program(), mint, NOW + 100, RESERVE),
        Err(TimelockError::InvalidCreator)
    );
    assert_eq!(accounts, before);
}

#[test]
fn withdraw_rejects_tampered_accounts() {
    let mint = subject(b"ABC");
    let (init, record) = created(&mint, NOW + 100);
    let mut swapped = withdraw_accounts(&init, record, 5 * RESERVE);
    swapped.vault = init.lock;
    assert_eq!(
        withdraw(&mut swapped, &program(), mint, NOW + 200, RESERVE),
        Err(TimelockError::AddressMismatch)
    );
    let mut wrong_mint = withdraw_accounts(&init, record, 5 * RESERVE);
    assert_eq!(
        withdraw(&mut wrong_mint, &program(), subject(b"OTHER"), NOW + 200, RESERVE),
        Err(TimelockError::AddressMismatch)
    );
    let mut bad_bump = record;
    bad_bump.vault_bump = bad_bump.vault_bump.wrapping_sub(1);
    let mut wrong_bump = withdraw_accounts(&init, bad_bump, 5 * RESERVE);
    assert_eq!(
        withdraw(&mut wrong_bump, &program(), mint, NOW + 200, RESERVE),
        Err(TimelockError::AddressMismatch)
    );
    assert_eq!(wrong_bump.vault_lamports, 5 * RESERVE);
}

#[test]
fn withdraw_moves_everything_above_the_reserve() {
    let mint = subject(b"ABC");
    let (init, record) = created(&mint, NOW + 100);
    let mut accounts = withdraw_accounts(&init, record, RESERVE + 1_234_567);
    assert_eq!(withdraw(&mut accounts, &program(), mint, NOW + 100, RESERVE), Ok(1_234_567));
    assert_eq!(accounts.vault_lamports, RESERVE);
}

#[test]
fn withdraw_from_vault_at_or_below_reserve_moves_nothing() {
    let mint = subject(b"ABC");
    let (init, record) = created(&mint, NOW + 100);
    for balance in [0, 1, RESERVE - 1, RESERVE] {
        let mut accounts = withdraw_accounts(&init, record, balance);
        assert_eq!(withdraw(&mut accounts, &program(), mint, NOW + 500, RESERVE), Ok(0));
        assert_eq!(accounts.vault_lamports, balance);
    }
    let mut full = withdraw_accounts(&init, record, u64::MAX);
    assert_eq!(withdraw(&mut full, &program(), mint, NOW + 500, 0), Ok(u64::MAX));
    assert_eq!(full.vault_lamports, 0);
}

#[test]
fn second_withdrawal_moves_nothing_until_refunded() {
    let mint = subject(b"ABC");
    let (init, record) = created(&mint, NOW + 100);
    let mut accounts = withdraw_accounts(&init, record, 3 * RESERVE);
    assert_eq!(withdraw(&mut accounts, &program(), mint, NOW + 100, RESERVE), Ok(2 * RESERVE));
    assert_eq!(withdraw(&mut accounts, &program(), mint, NOW + 101, RESERVE), Ok(0));
    assert_eq!(accounts.vault_lamports, RESERVE);
    accounts.vault_lamports += 500;
    assert_eq!(withdraw(&mut accounts, &program(), mint, NOW + 102, RESERVE), Ok(500));
    assert_eq!(accounts.vault_lamports, RESERVE);
}
