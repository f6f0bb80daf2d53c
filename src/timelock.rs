//! The lock's two instructions, as decisions over the accounts the runtime hands
//! in. Reading the clock and the rent, creating accounts and moving lamports are
//! the runtime's work; these functions decide what is done and what is refused.
use vstd::prelude::*;
use crate::address::{
    Address,
    Role,
    derived,
    rederived,
    find_address,
    address_with_bump,
};

verus! {

/// The persisted lock record.
#[derive(Clone, Copy, Debug, PartialEq, Eq)]
pub struct LockAccount {
    /// Who receives the funds on unlock: always the payer of the lock's creation.
    pub creator: Address,
    /// The subject key that the lock and vault addresses are derived from.
    pub mint: Address,
    /// Unix time from which withdrawal is allowed.
    pub unlock_ts: i64,
    /// Bump of the lock record's address.
    pub lock_bump: u8,
    /// Bump of the vault's address.
    pub vault_bump: u8,
}

/// Why an instruction was refused.
#[derive(Clone, Copy, Debug, PartialEq, Eq)]
pub enum TimelockError {
    /// The unlock time is not after the current time.
    UnlockTimeInPast,
    /// The unlock time has not been reached.
    LockNotExpired,
    /// The destination account is not the lock's creator.
    InvalidCreator,
    /// A supplied lock or vault account is not at the address derived for the mint.
    AddressMismatch,
}

/// The accounts of lock creation: the paying signer and the two derived accounts.
#[derive(Clone, Copy, Debug, PartialEq, Eq)]
pub struct InitializeLock {
    /// The signer who pays, and who becomes the creator.
    pub payer: Address,
    /// Where the lock record is to be written.
    pub lock: Address,
    /// Where the vault is to be created.
    pub vault: Address,
}

/// The accounts of withdrawal. Any signer may call; the funds go to the creator.
#[derive(Clone, Copy, Debug, PartialEq, Eq)]
pub struct Withdraw {
    /// The signer of the call; it plays no part in the decision.
    pub caller: Address,
    /// The supplied lock record's address.
    pub lock: Address,
    /// The record stored there.
    pub lock_record: LockAccount,
    /// The supplied vault's address.
    pub vault: Address,
    /// The vault's balance in lamports.
    pub vault_lamports: u64,
    /// The destination of the funds.
    pub creator: Address,
}

/// What a withdrawal moves out of a vault holding `balance` above `reserve`:
/// `max(0, balance - reserve)`.
pub open spec fn excess(balance: u64, reserve: u64) -> u64 {
    if balance > reserve {
        (balance - reserve) as u64
    } else {
        0
    }
}

/// The outcome of lock creation: the record to persist, or the refusal.
pub open spec fn initialize_outcome(
    accounts: InitializeLock,
    program: Seq<u8>,
    mint: Address,
    unlock_ts: i64,
    current_ts: i64,
) -> Result<LockAccount, TimelockError> {
    let lock = derived(program, mint@, Role::Lock);
    let vault = derived(program, mint@, Role::Vault);
    if !(lock matches Some(l) && l.0 == accounts.lock@) || !(vault matches Some(v) && v.0
        == accounts.vault@) {
        Err(TimelockError::AddressMismatch)
    } else if unlock_ts <= current_ts {
        Err(TimelockError::UnlockTimeInPast)
    } else {
        Ok(
            LockAccount {
                creator: accounts.payer,
                mint,
                unlock_ts,
                lock_bump: lock->Some_0.1,
                vault_bump: vault->Some_0.1,
            },
        )
    }
}

/// Whether the supplied lock and vault addresses are those that the record's
/// bumps re-derive for `mint`.
pub open spec fn addresses_rederive(
    record: LockAccount,
    program: Seq<u8>,
    mint: Seq<u8>,
    lock: Seq<u8>,
    vault: Seq<u8>,
) -> bool {
    &&& rederived(program, mint, Role::Lock, record.lock_bump) == Some(lock)
    &&& rederived(program, mint, Role::Vault, record.vault_bump) == Some(vault)
}

/// The outcome of withdrawal: the lamports moved to the creator, or the refusal.
pub open spec fn withdraw_outcome(
    accounts: Withdraw,
    program: Seq<u8>,
    mint: Seq<u8>,
    current_ts: i64,
    rent_minimum: u64,
) -> Result<u64, TimelockError> {
    if !addresses_rederive(accounts.lock_record, program, mint, accounts.lock@, accounts.vault@) {
        Err(TimelockError::AddressMismatch)
    } else if current_ts < accounts.lock_record.unlock_ts {
        Err(TimelockError::LockNotExpired)
    } else if accounts.creator@ != accounts.lock_record.creator@ {
        Err(TimelockError::InvalidCreator)
    } else {
        Ok(excess(accounts.vault_lamports, rent_minimum))
    }
}

/// The accounts after `amount` lamports have left the vault.
pub open spec fn after_transfer(accounts: Withdraw, amount: u64) -> Withdraw {
    Withdraw { vault_lamports: (accounts.vault_lamports - amount) as u64, ..accounts }
}

/// Creates a lock for `mint` that opens at `unlock_ts`, at `current_ts`.
///
/// Checks that the supplied lock and vault are the addresses derived for `mint`,
/// and that the unlock time is in the future. On success returns the record to
/// persist: its creator is the payer, whatever else was supplied. The vault is then
/// created by the runtime with the rent minimum and nothing more.
pub fn initialize_lock(
    accounts: &InitializeLock,
    program_id: &Address,
    mint: Address,
    unlock_ts: i64,
    current_ts: i64,
) -> (r: Result<LockAccount, TimelockError>)
    ensures
        r == initialize_outcome(*accounts, program_id@, mint, unlock_ts, current_ts),
        r matches Ok(record) ==> record.creator == accounts.payer && record.mint == mint
            && record.unlock_ts == unlock_ts && current_ts < unlock_ts,
        r matches Ok(record) ==> addresses_rederive(
            record,
            program_id@,
            mint@,
            accounts.lock@,
            accounts.vault@,
        ),
{
    let lock = find_address(program_id, &mint, Role::Lock);
    let vault = find_address(program_id, &mint, Role::Vault);
    let (lock_bump, vault_bump) = match (lock, vault) {
        (Some(l), Some(v)) => {
            if !l.0.same_as(&accounts.lock) || !v.0.same_as(&accounts.vault) {
                return Err(TimelockError::AddressMismatch);
            }
            (l.1, v.1)
        },
        _ => {
            return Err(TimelockError::AddressMismatch);
        },
    };
    if unlock_ts <= current_ts {
        return Err(TimelockError::UnlockTimeInPast);
    }
    Ok(
        LockAccount {
            creator: accounts.payer,
            mint,
            unlock_ts,
            lock_bump,
            vault_bump,
        },
    )
}

/// Withdraws, at `current_ts`, everything above `rent_minimum` from the vault of
/// `mint` to the lock's creator.
///
/// Re-derives the lock and vault addresses from the record's bumps, checks the
/// unlock time, then that the destination is the creator. On success the vault
/// loses the returned amount, which is zero where it holds no more than the
/// reserve; on a refusal nothing changes.
pub fn withdraw(
    accounts: &mut Withdraw,
    program_id: &Address,
    mint: Address,
    current_ts: i64,
    rent_minimum: u64,
) -> (r: Result<u64, TimelockError>)
    ensures
        r == withdraw_outcome(*old(accounts), program_id@, mint@, current_ts, rent_minimum),
        match r {
            Ok(amount) => *final(accounts) == after_transfer(*old(accounts), amount),
            Err(_) => *final(accounts) == *old(accounts),
        },
{
    let record = accounts.lock_record;
    let lock = address_with_bump(program_id, &mint, Role::Lock, record.lock_bump);
    let vault = address_with_bump(program_id, &mint, Role::Vault, record.vault_bump);
    match (lock, vault) {
        (Some(l), Some(v)) => {
            if !l.same_as(&accounts.lock) || !v.same_as(&accounts.vault) {
                return Err(TimelockError::AddressMismatch);
            }
        },
        _ => {
            return Err(TimelockError::AddressMismatch);
        },
    }
    if current_ts < record.unlock_ts {
        return Err(TimelockError::LockNotExpired);
    }
    if !accounts.creator.same_as(&record.creator) {
        return Err(TimelockError::InvalidCreator);
    }
    let amount = accounts.vault_lamports.saturating_sub(rent_minimum);
    if amount == 0 {
        return Ok(0);
    }
    accounts.vault_lamports = accounts.vault_lamports - amount;
    Ok(amount)
}

/// Creation guard: with the lock and vault at their derived addresses, creation
/// fails with `UnlockTimeInPast` exactly when the unlock time is not after the
/// current time, and otherwise yields a record with that unlock time.
pub proof fn lemma_creation_guard(
    accounts: InitializeLock,
    program: Seq<u8>,
    mint: Address,
    unlock_ts: i64,
    current_ts: i64,
)
    requires
        derived(program, mint@, Role::Lock) matches Some(l) && l.0 == accounts.lock@,
        derived(program, mint@, Role::Vault) matches Some(v) && v.0 == accounts.vault@,
    ensures
        unlock_ts <= current_ts ==> initialize_outcome(accounts, program, mint, unlock_ts, current_ts)
            == Err::<LockAccount, TimelockError>(TimelockError::UnlockTimeInPast),
        current_ts < unlock_ts ==> (initialize_outcome(accounts, program, mint, unlock_ts, current_ts)
            matches Ok(record) && record.unlock_ts == unlock_ts && record.mint == mint),
{
}

/// The beneficiary is the payer: every record that creation yields names the
/// paying signer as creator, and two creations that differ in anything but the
/// payer agree on the creator whenever their payers agree.
pub proof fn lemma_creator_is_payer(
    accounts1: InitializeLock,
    accounts2: InitializeLock,
    program: Seq<u8>,
    mint1: Address,
    mint2: Address,
    unlock_ts1: i64,
    unlock_ts2: i64,
    current_ts1: i64,
    current_ts2: i64,
)
    ensures
        initialize_outcome(accounts1, program, mint1, unlock_ts1, current_ts1) matches Ok(record)
            ==> record.creator == accounts1.payer,
        ({
            let o1 = initialize_outcome(accounts1, program, mint1, unlock_ts1, current_ts1);
            let o2 = initialize_outcome(accounts2, program, mint2, unlock_ts2, current_ts2);
            accounts1.payer == accounts2.payer && o1 is Ok && o2 is Ok ==> o1->Ok_0.creator
                == o2->Ok_0.creator
        }),
{
}

/// Time gate: with the accounts at their re-derived addresses, withdrawal before
/// the unlock time fails with `LockNotExpired` whoever calls and whatever the
/// destination, and so moves nothing.
pub proof fn lemma_time_gate(accounts: Withdraw, program: Seq<u8>, mint: Seq<u8>, current_ts: i64, rent_minimum: u64)
    requires
        addresses_rederive(accounts.lock_record, program, mint, accounts.lock@, accounts.vault@),
        current_ts < accounts.lock_record.unlock_ts,
    ensures
        withdraw_outcome(accounts, program, mint, current_ts, rent_minimum) == Err::<u64, TimelockError>(
            TimelockError::LockNotExpired,
        ),
{
}

/// Saturating withdrawal: once open, a withdrawal to the creator moves
/// `max(0, B - R)` for a vault balance `B` and reserve `R`, zero when `B <= R`,
/// and leaves `min(B, R)` in the vault.
pub proof fn lemma_saturating_withdrawal(
    accounts: Withdraw,
    program: Seq<u8>,
    mint: Seq<u8>,
    current_ts: i64,
    rent_minimum: u64,
)
    requires
        addresses_rederive(accounts.lock_record, program, mint, accounts.lock@, accounts.vault@),
        accounts.lock_record.unlock_ts <= current_ts,
        accounts.creator@ == accounts.lock_record.creator@,
    ensures
        withdraw_outcome(accounts, program, mint, current_ts, rent_minimum) == Ok::<u64, TimelockError>(
            excess(accounts.vault_lamports, rent_minimum),
        ),
        accounts.vault_lamports <= rent_minimum ==> excess(accounts.vault_lamports, rent_minimum) == 0,
        accounts.vault_lamports > rent_minimum ==> excess(accounts.vault_lamports, rent_minimum)
            == accounts.vault_lamports - rent_minimum,
        after_transfer(accounts, excess(accounts.vault_lamports, rent_minimum)).vault_lamports == if accounts.vault_lamports
            > rent_minimum {
            rent_minimum
        } else {
            accounts.vault_lamports
        },
{
}

/// Re-entry: a withdrawal that succeeds leaves the vault at or below the reserve,
/// so a second one with no funding in between succeeds and moves nothing.
pub proof fn lemma_second_withdrawal_moves_nothing(
    accounts: Withdraw,
    program: Seq<u8>,
    mint: Seq<u8>,
    current_ts: i64,
    rent_minimum: u64,
    amount: u64,
)
    requires
        withdraw_outcome(accounts, program, mint, current_ts, rent_minimum) == Ok::<u64, TimelockError>(amount),
    ensures
        amount == excess(accounts.vault_lamports, rent_minimum),
        withdraw_outcome(after_transfer(accounts, amount), program, mint, current_ts, rent_minimum)
            == Ok::<u64, TimelockError>(0),
{
}

/// A created lock can be withdrawn from: where creation yielded `record` and
/// re-derivation of its bumps gives the supplied accounts back (as
/// `initialize_lock` ensures), a withdrawal on those accounts to the creator is
/// refused with `LockNotExpired` before the unlock time, and from then on moves
/// the vault's excess over the reserve.
pub proof fn lemma_created_lock_opens(
    init: InitializeLock,
    program: Seq<u8>,
    mint: Address,
    unlock_ts: i64,
    created_ts: i64,
    record: LockAccount,
    accounts: Withdraw,
    current_ts: i64,
    rent_minimum: u64,
)
    requires
        initialize_outcome(init, program, mint, unlock_ts, created_ts) == Ok::<LockAccount, TimelockError>(record),
        addresses_rederive(record, program, mint@, init.lock@, init.vault@),
        accounts.lock == init.lock,
        accounts.vault == init.vault,
        accounts.lock_record == record,
        accounts.creator == init.payer,
    ensures
        current_ts < unlock_ts ==> withdraw_outcome(accounts, program, mint@, current_ts, rent_minimum)
            == Err::<u64, TimelockError>(TimelockError::LockNotExpired),
        unlock_ts <= current_ts ==> withdraw_outcome(accounts, program, mint@, current_ts, rent_minimum)
            == Ok::<u64, TimelockError>(excess(accounts.vault_lamports, rent_minimum)),
{
}

} // verus!
