use vstd::prelude::*;

use crate::identity::Identity;

verus! {

/// Why a vault operation was refused.
#[derive(Clone, Copy, Debug, PartialEq, Eq, Structural)]
pub enum ErrorCode {
    VaultNotActive,
    TooEarlyToExecute,
    AllCyclesCompleted,
    InsufficientBalance,
    VaultNotPaused,
    SlippageExceeded,
    Unauthorized,
    ArithmeticOverflow,
}

/// Lifecycle of a vault. `Cancelled` is terminal.
#[derive(Clone, Copy, Debug, PartialEq, Eq, Structural)]
pub enum VaultStatus {
    Active,
    Paused,
    Completed,
    Cancelled,
}

/// A recurring-purchase vault: every `frequency_seconds` it moves
/// `amount_per_cycle` of its custody into a swap, `total_cycles` times.
#[derive(Clone, Copy, Debug)]
pub struct Vault {
    pub owner: Identity,
    pub source_mint: Identity,
    pub dest_mint: Identity,
    pub amount_per_cycle: u64,
    pub frequency_seconds: i64,
    pub total_cycles: u16,
    pub executed_cycles: u16,
    pub total_deposited: u64,
    pub total_received: u64,
    pub last_execution: i64,
    pub next_execution: i64,
    pub status: VaultStatus,
}

impl Vault {
    /// Cycles never outrun the schedule, and a completed vault ran them all.
    pub open spec fn wf(&self) -> bool {
        &&& self.executed_cycles <= self.total_cycles
        &&& self.status == VaultStatus::Completed ==> self.executed_cycles == self.total_cycles
    }
}

/// `a + b` fits in an `i64`.
pub open spec fn fits_i64(a: int, b: int) -> bool {
    i64::MIN <= a + b <= i64::MAX
}

/// The only status changes a vault makes: pause, resume, completion, close.
pub open spec fn status_transition(before: VaultStatus, after: VaultStatus) -> bool {
    ||| before == after
    ||| before == VaultStatus::Active && after == VaultStatus::Paused
    ||| before == VaultStatus::Paused && after == VaultStatus::Active
    ||| before == VaultStatus::Active && after == VaultStatus::Completed
    ||| after == VaultStatus::Cancelled
}

/// What any one vault operation may do to the schedule and status.
pub open spec fn vault_step(before: Vault, after: Vault) -> bool {
    &&& after.total_cycles == before.total_cycles
    &&& after.executed_cycles >= before.executed_cycles
    &&& status_transition(before.status, after.status)
    &&& before.wf() ==> after.wf()
}

/// The error, if any, that keeps a cycle from running at time `now`:
/// timing, cycles left, status, then room for the next due time.
pub open spec fn cycle_error(v: Vault, now: i64) -> Option<ErrorCode> {
    if now < v.next_execution {
        Some(ErrorCode::TooEarlyToExecute)
    } else if v.executed_cycles >= v.total_cycles {
        Some(ErrorCode::AllCyclesCompleted)
    } else if v.status != VaultStatus::Active {
        Some(ErrorCode::VaultNotActive)
    } else if !fits_i64(now as int, v.frequency_seconds as int) {
        Some(ErrorCode::ArithmeticOverflow)
    } else {
        None
    }
}

/// The error, if any, that keeps a cycle from starting, given the custody balance.
pub open spec fn start_error(v: Vault, now: i64, vault_balance: u64) -> Option<ErrorCode> {
    if cycle_error(v, now) is Some {
        cycle_error(v, now)
    } else if vault_balance < v.amount_per_cycle {
        Some(ErrorCode::InsufficientBalance)
    } else {
        None
    }
}

/// Output of a swap as seen on the destination balance; never negative.
pub open spec fn received_amount(before: u64, after: u64) -> u64 {
    if after >= before {
        (after - before) as u64
    } else {
        0
    }
}

/// The error, if any, that `execute_dca` gives once the swap has run.
pub open spec fn settle_error(
    v: Vault,
    now: i64,
    dest_before: u64,
    dest_after: u64,
    min_amount_out: u64,
) -> Option<ErrorCode> {
    let received = received_amount(dest_before, dest_after);
    if cycle_error(v, now) is Some {
        cycle_error(v, now)
    } else if received < min_amount_out {
        Some(ErrorCode::SlippageExceeded)
    } else if v.total_received + received > u64::MAX {
        Some(ErrorCode::ArithmeticOverflow)
    } else {
        None
    }
}

/// The vault after a cycle that ran at `now` and received `received`.
pub open spec fn after_cycle(v: Vault, now: i64, received: u64) -> Vault {
    let executed = (v.executed_cycles + 1) as u16;
    Vault {
        executed_cycles: executed,
        total_received: (v.total_received + received) as u64,
        last_execution: now,
        next_execution: (now + v.frequency_seconds) as i64,
        status: if executed >= v.total_cycles {
            VaultStatus::Completed
        } else {
            v.status
        },
        ..v
    }
}

fn checked_next(now: i64, frequency_seconds: i64) -> (r: Option<i64>)
    ensures
        r is Some <==> fits_i64(now as int, frequency_seconds as int),
        r is Some ==> r->Some_0 == now + frequency_seconds,
{
    if frequency_seconds >= 0 {
        if now > i64::MAX - frequency_seconds {
            return None;
        }
    } else {
        if now < i64::MIN - frequency_seconds {
            return None;
        }
    }
    Some(now + frequency_seconds)
}

/// Creates an active vault at time `now`, first due one period later.
pub fn initialize_vault(
    owner: Identity,
    source_mint: Identity,
    dest_mint: Identity,
    amount_per_cycle: u64,
    frequency_seconds: i64,
    total_cycles: u16,
    now: i64,
) -> (r: Result<Vault, ErrorCode>)
    ensures
        r is Ok <==> fits_i64(now as int, frequency_seconds as int),
        r is Err ==> r->Err_0 == ErrorCode::ArithmeticOverflow,
        r is Ok ==> ({
            let v = r->Ok_0;
            &&& v.wf()
            &&& v.owner@ == owner@
            &&& v.source_mint@ == source_mint@
            &&& v.dest_mint@ == dest_mint@
            &&& v.amount_per_cycle == amount_per_cycle
            &&& v.frequency_seconds == frequency_seconds
            &&& v.total_cycles == total_cycles
            &&& v.executed_cycles == 0
            &&& v.total_deposited == 0
            &&& v.total_received == 0
            &&& v.last_execution == now
            &&& v.next_execution == now + frequency_seconds
            &&& v.status == VaultStatus::Active
        }),
{
    match checked_next(now, frequency_seconds) {
        None => Err(ErrorCode::ArithmeticOverflow),
        Some(next_execution) => Ok(
            Vault {
                owner,
                source_mint,
                dest_mint,
                amount_per_cycle,
                frequency_seconds,
                total_cycles,
                executed_cycles: 0,
                total_deposited: 0,
                total_received: 0,
                last_execution: now,
                next_execution,
                status: VaultStatus::Active,
            },
        ),
    }
}

/// Records a deposit of `amount` by the owner into an active vault.
/// On success the caller moves the tokens into custody.
pub fn deposit(vault: &mut Vault, caller: &Identity, amount: u64) -> (r: Result<(), ErrorCode>)
    ensures
        caller@ != old(vault).owner@ ==> r == Err::<(), ErrorCode>(ErrorCode::Unauthorized),
        caller@ == old(vault).owner@ && old(vault).status != VaultStatus::Active ==> r == Err::<
            (),
            ErrorCode,
        >(ErrorCode::VaultNotActive),
        caller@ == old(vault).owner@ && old(vault).status == VaultStatus::Active
            && old(vault).total_deposited + amount > u64::MAX ==> r == Err::<(), ErrorCode>(
            ErrorCode::ArithmeticOverflow,
        ),
        r is Ok <==> caller@ == old(vault).owner@ && old(vault).status == VaultStatus::Active
            && old(vault).total_deposited + amount <= u64::MAX,
        r is Ok ==> *final(vault) == (Vault {
            total_deposited: (old(vault).total_deposited + amount) as u64,
            ..*old(vault)
        }),
        r is Err ==> *final(vault) == *old(vault),
        vault_step(*old(vault), *final(vault)),
{
    if !caller.same_as(&vault.owner) {
        return Err(ErrorCode::Unauthorized);
    }
    if vault.status != VaultStatus::Active {
        return Err(ErrorCode::VaultNotActive);
    }
    if amount > u64::MAX - vault.total_deposited {
        return Err(ErrorCode::ArithmeticOverflow);
    }
    vault.total_deposited = vault.total_deposited + amount;
    Ok(())
}

fn cycle_check(vault: &Vault, now: i64) -> (r: Result<(), ErrorCode>)
    ensures
        r is Ok <==> cycle_error(*vault, now) is None,
        r is Err ==> cycle_error(*vault, now) == Some(r->Err_0),
{
    if now < vault.next_execution {
        return Err(ErrorCode::TooEarlyToExecute);
    }
    if vault.executed_cycles >= vault.total_cycles {
        return Err(ErrorCode::AllCyclesCompleted);
    }
    if vault.status != VaultStatus::Active {
        return Err(ErrorCode::VaultNotActive);
    }
    if checked_next(now, vault.frequency_seconds).is_none() {
        return Err(ErrorCode::ArithmeticOverflow);
    }
    Ok(())
}

/// Decides, before any funds move, whether a cycle may start at `now` with
/// `vault_balance` in custody; on success returns the amount to send to the swap.
pub fn check_execute_dca(vault: &Vault, now: i64, vault_balance: u64) -> (r: Result<
    u64,
    ErrorCode,
>)
    ensures
        r is Ok <==> start_error(*vault, now, vault_balance) is None,
        r is Err ==> start_error(*vault, now, vault_balance) == Some(r->Err_0),
        r is Ok ==> r->Ok_0 == vault.amount_per_cycle,
{
    match cycle_check(vault, now) {
        Err(e) => Err(e),
        Ok(()) => {
            if vault_balance < vault.amount_per_cycle {
                Err(ErrorCode::InsufficientBalance)
            } else {
                Ok(vault.amount_per_cycle)
            }
        },
    }
}

/// Settles a cycle whose transfer to the swap has already happened: the
/// destination balance went from `dest_before` to `dest_after`. Fails with
/// `SlippageExceeded` when less than `min_amount_out` arrived; the outbound
/// transfer is not undone then, and the vault is left as it was. On success
/// advances the schedule and returns the amount received.
pub fn execute_dca(
    vault: &mut Vault,
    now: i64,
    dest_before: u64,
    dest_after: u64,
    min_amount_out: u64,
) -> (r: Result<u64, ErrorCode>)
    ensures
        r is Ok <==> settle_error(*old(vault), now, dest_before, dest_after, min_amount_out) is None,
        r is Err ==> settle_error(*old(vault), now, dest_before, dest_after, min_amount_out)
            == Some(r->Err_0),
        r is Ok ==> r->Ok_0 == received_amount(dest_before, dest_after),
        r is Ok ==> *final(vault) == after_cycle(
            *old(vault),
            now,
            received_amount(dest_before, dest_after),
        ),
        r is Ok ==> final(vault).next_execution == final(vault).last_execution
            + final(vault).frequency_seconds,
        r is Err ==> *final(vault) == *old(vault),
        vault_step(*old(vault), *final(vault)),
{
    match cycle_check(vault, now) {
        Err(e) => {
            return Err(e);
        },
        Ok(()) => {},
    }
    let received: u64 = if dest_after >= dest_before {
        dest_after - dest_before
    } else {
        0
    };
    if received < min_amount_out {
        return Err(ErrorCode::SlippageExceeded);
    }
    if received > u64::MAX - vault.total_received {
        return Err(ErrorCode::ArithmeticOverflow);
    }
    vault.executed_cycles = vault.executed_cycles + 1;
    vault.total_received = vault.total_received + received;
    vault.last_execution = now;
    vault.next_execution = now + vault.frequency_seconds;
    if vault.executed_cycles >= vault.total_cycles {
        vault.status = VaultStatus::Completed;
    }
    Ok(received)
}

/// Pauses an active vault. Only the owner may.
pub fn pause_vault(vault: &mut Vault, caller: &Identity) -> (r: Result<(), ErrorCode>)
    ensures
        caller@ != old(vault).owner@ ==> r == Err::<(), ErrorCode>(ErrorCode::Unauthorized),
        caller@ == old(vault).owner@ && old(vault).status != VaultStatus::Active ==> r == Err::<
            (),
            ErrorCode,
        >(ErrorCode::VaultNotActive),
        r is Ok <==> caller@ == old(vault).owner@ && old(vault).status == VaultStatus::Active,
        r is Ok ==> *final(vault) == (Vault { status: VaultStatus::Paused, ..*old(vault) }),
        r is Err ==> *final(vault) == *old(vault),
        vault_step(*old(vault), *final(vault)),
{
    if !caller.same_as(&vault.owner) {
        return Err(ErrorCode::Unauthorized);
    }
    if vault.status != VaultStatus::Active {
        return Err(ErrorCode::VaultNotActive);
    }
    vault.status = VaultStatus::Paused;
    Ok(())
}

/// Resumes a paused vault at `now`, next due one period later. Only the owner may.
pub fn resume_vault(vault: &mut Vault, caller: &Identity, now: i64) -> (r: Result<(), ErrorCode>)
    ensures
        caller@ != old(vault).owner@ ==> r == Err::<(), ErrorCode>(ErrorCode::Unauthorized),
        caller@ == old(vault).owner@ && old(vault).status != VaultStatus::Paused ==> r == Err::<
            (),
            ErrorCode,
        >(ErrorCode::VaultNotPaused),
        caller@ == old(vault).owner@ && old(vault).status == VaultStatus::Paused && !fits_i64(
            now as int,
            old(vault).frequency_seconds as int,
        ) ==> r == Err::<(), ErrorCode>(ErrorCode::ArithmeticOverflow),
        r is Ok <==> caller@ == old(vault).owner@ && old(vault).status == VaultStatus::Paused
            && fits_i64(now as int, old(vault).frequency_seconds as int),
        r is Ok ==> *final(vault) == (Vault {
            status: VaultStatus::Active,
            next_execution: (now + old(vault).frequency_seconds) as i64,
            ..*old(vault)
        }),
        r is Err ==> *final(vault) == *old(vault),
        vault_step(*old(vault), *final(vault)),
{
    if !caller.same_as(&vault.owner) {
        return Err(ErrorCode::Unauthorized);
    }
    if vault.status != VaultStatus::Paused {
        return Err(ErrorCode::VaultNotPaused);
    }
    match checked_next(now, vault.frequency_seconds) {
        None => Err(ErrorCode::ArithmeticOverflow),
        Some(next_execution) => {
            vault.status = VaultStatus::Active;
            vault.next_execution = next_execution;
            Ok(())
        },
    }
}

/// Closes the vault from any status. Only the owner may. On success returns
/// the residual custody balance, all of which goes back to the owner.
pub fn close_vault(vault: &mut Vault, caller: &Identity, vault_balance: u64) -> (r: Result<
    u64,
    ErrorCode,
>)
    ensures
        r is Ok <==> caller@ == old(vault).owner@,
        r is Err ==> r->Err_0 == ErrorCode::Unauthorized && *final(vault) == *old(vault),
        r is Ok ==> r->Ok_0 == vault_balance,
        r is Ok ==> *final(vault) == (Vault { status: VaultStatus::Cancelled, ..*old(vault) }),
        vault_step(*old(vault), *final(vault)),
{
    if !caller.same_as(&vault.owner) {
        return Err(ErrorCode::Unauthorized);
    }
    vault.status = VaultStatus::Cancelled;
    Ok(vault_balance)
}

} // verus!
