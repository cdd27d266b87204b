use vstd::prelude::*;

use crate::dca_vault::{
    check_execute_dca, execute_dca, after_cycle, received_amount, settle_error, start_error,
    ErrorCode as VaultError, Vault,
};
use crate::identity::Identity;
use crate::session_keys::{
    charged, check_session, validate_session, validation_error, ErrorCode as SessionError,
    SessionKey,
};

verus! {

/// Why a delegated cycle was refused: by the vault, or by the session key.
#[derive(Clone, Copy, Debug, PartialEq, Eq, Structural)]
pub enum CycleError {
    Vault(VaultError),
    Session(SessionError),
}

/// The error, if any, that keeps `caller` from starting a cycle of `vault`
/// towards `target` under `session_key`: the vault's own checks first, then
/// the key's, for one cycle's amount.
pub open spec fn begin_error(
    vault: Vault,
    session_key: SessionKey,
    caller: Seq<u8>,
    target: Seq<u8>,
    now: i64,
    vault_balance: u64,
) -> Option<CycleError> {
    if start_error(vault, now, vault_balance) is Some {
        Some(CycleError::Vault(start_error(vault, now, vault_balance)->Some_0))
    } else if validation_error(session_key, caller, now, target, vault.amount_per_cycle) is Some {
        Some(
            CycleError::Session(
                validation_error(session_key, caller, now, target, vault.amount_per_cycle)->Some_0,
            ),
        )
    } else {
        None
    }
}

/// The error, if any, that `complete_cycle` gives: the key's checks first,
/// then the vault's settlement.
pub open spec fn complete_error(
    vault: Vault,
    session_key: SessionKey,
    caller: Seq<u8>,
    target: Seq<u8>,
    now: i64,
    dest_before: u64,
    dest_after: u64,
    min_amount_out: u64,
) -> Option<CycleError> {
    if validation_error(session_key, caller, now, target, vault.amount_per_cycle) is Some {
        Some(
            CycleError::Session(
                validation_error(session_key, caller, now, target, vault.amount_per_cycle)->Some_0,
            ),
        )
    } else if settle_error(vault, now, dest_before, dest_after, min_amount_out) is Some {
        Some(
            CycleError::Vault(settle_error(vault, now, dest_before, dest_after, min_amount_out)->Some_0),
        )
    } else {
        None
    }
}

/// First half of a delegated cycle, before any funds move: the vault must be
/// due, active, with cycles left and enough custody, and `session_key` must let
/// `caller` send one cycle's amount to `target`. Nothing is charged here. On
/// success returns the amount to transfer to `target`. The caller holds the
/// vault exclusively from this call through `complete_cycle`, so that two
/// delegates cannot both start a transfer for the same cycle.
pub fn begin_cycle(
    vault: &Vault,
    session_key: &SessionKey,
    caller: &Identity,
    target: &Identity,
    now: i64,
    vault_balance: u64,
) -> (r: Result<u64, CycleError>)
    ensures
        r is Ok <==> begin_error(*vault, *session_key, caller@, target@, now, vault_balance) is None,
        r is Err ==> begin_error(*vault, *session_key, caller@, target@, now, vault_balance)
            == Some(r->Err_0),
        r is Ok ==> r->Ok_0 == vault.amount_per_cycle,
{
    let amount = match check_execute_dca(vault, now, vault_balance) {
        Err(e) => {
            return Err(CycleError::Vault(e));
        },
        Ok(a) => a,
    };
    match check_session(session_key, caller, now, target, amount) {
        Err(e) => Err(CycleError::Session(e)),
        Ok(()) => Ok(amount),
    }
}

/// Second half of a delegated cycle, once one cycle's amount has gone to
/// `target` and the destination balance went from `dest_before` to
/// `dest_after`. Commits the vault's progress and the key's spend together, or
/// neither: the key is charged only when the slippage check passes.
pub fn complete_cycle(
    vault: &mut Vault,
    session_key: &mut SessionKey,
    caller: &Identity,
    target: &Identity,
    now: i64,
    dest_before: u64,
    dest_after: u64,
    min_amount_out: u64,
) -> (r: Result<u64, CycleError>)
    ensures
        r is Ok <==> complete_error(
            *old(vault),
            *old(session_key),
            caller@,
            target@,
            now,
            dest_before,
            dest_after,
            min_amount_out,
        ) is None,
        r is Err ==> complete_error(
            *old(vault),
            *old(session_key),
            caller@,
            target@,
            now,
            dest_before,
            dest_after,
            min_amount_out,
        ) == Some(r->Err_0),
        r is Ok ==> r->Ok_0 == received_amount(dest_before, dest_after),
        r is Ok ==> *final(vault) == after_cycle(*old(vault), now, r->Ok_0),
        r is Ok ==> *final(session_key) == charged(*old(session_key), old(vault).amount_per_cycle),
        r is Err ==> *final(vault) == *old(vault) && *final(session_key) == *old(session_key),
{
    let amount = vault.amount_per_cycle;
    match check_session(session_key, caller, now, target, amount) {
        Err(e) => {
            return Err(CycleError::Session(e));
        },
        Ok(()) => {},
    }
    let received = match execute_dca(vault, now, dest_before, dest_after, min_amount_out) {
        Err(e) => {
            return Err(CycleError::Vault(e));
        },
        Ok(x) => x,
    };
    let charged_ok = validate_session(session_key, caller, now, target, amount);
    assert(charged_ok is Ok);
    Ok(received)
}

} // verus!
