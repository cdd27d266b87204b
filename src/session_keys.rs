use vstd::prelude::*;

use crate::identity::Identity;

verus! {

/// Most targets one session key may be scoped to.
pub const MAX_ALLOWED_PROGRAMS: usize = 10;

/// Why a session-key operation was refused.
#[derive(Clone, Copy, Debug, PartialEq, Eq, Structural)]
pub enum ErrorCode {
    SessionKeyNotActive,
    SessionKeyExpired,
    AmountExceedsPerTxLimit,
    AmountExceedsTotalLimit,
    ProgramNotAllowed,
    TooManyAllowedPrograms,
    Unauthorized,
}

/// A delegated, capped, expiring spending authorization.
#[derive(Clone, Debug)]
pub struct SessionKey {
    pub owner: Identity,
    pub session_pubkey: Identity,
    pub max_amount_per_tx: u64,
    pub max_total_amount: u64,
    pub spent_amount: u64,
    pub created_at: i64,
    pub expiry_timestamp: i64,
    pub allowed_programs: Vec<Identity>,
    pub is_active: bool,
}

impl SessionKey {
    /// The allow-list stays within its fixed capacity.
    pub open spec fn wf(&self) -> bool {
        self.allowed_programs@.len() <= MAX_ALLOWED_PROGRAMS
    }

    /// The allow-list as a set of byte strings.
    pub open spec fn allowed_targets(&self) -> Set<Seq<u8>> {
        Set::new(|t: Seq<u8>| exists|i: int| 0 <= i < self.allowed_programs@.len() && #[trigger] self.allowed_programs@[i]@ == t)
    }

    /// The key can no longer let any amount through: the spent counter
    /// already exceeds the total cap (only `update_limits` can cause this).
    pub open spec fn exhausted(&self) -> bool {
        self.spent_amount > self.max_total_amount
    }

    pub fn is_exhausted(&self) -> (r: bool)
        ensures
            r == self.exhausted(),
    {
        self.spent_amount > self.max_total_amount
    }

    pub fn allows_program(&self, program_id: &Identity) -> (r: bool)
        ensures
            r == self.allowed_targets().contains(program_id@),
    {
        let n = self.allowed_programs.len();
        let mut i: usize = 0;
        while i < n
            invariant
                0 <= i <= n,
                n == self.allowed_programs@.len(),
                forall|j: int| 0 <= j < i ==> self.allowed_programs@[j]@ != program_id@,
            decreases n - i,
        {
            if self.allowed_programs[i].same_as(program_id) {
                assert(self.allowed_targets().contains(program_id@));
                return true;
            }
            i = i + 1;
        }
        false
    }
}

/// The error that `validate_session` gives for these arguments, if any:
/// caller, activity, expiry, per-call cap, total cap and allow-list, in that order.
pub open spec fn validation_error(
    key: SessionKey,
    caller: Seq<u8>,
    now: i64,
    program_id: Seq<u8>,
    amount: u64,
) -> Option<ErrorCode> {
    if caller != key.session_pubkey@ {
        Some(ErrorCode::Unauthorized)
    } else if !key.is_active {
        Some(ErrorCode::SessionKeyNotActive)
    } else if now >= key.expiry_timestamp {
        Some(ErrorCode::SessionKeyExpired)
    } else if amount > key.max_amount_per_tx {
        Some(ErrorCode::AmountExceedsPerTxLimit)
    } else if key.spent_amount + amount > key.max_total_amount {
        Some(ErrorCode::AmountExceedsTotalLimit)
    } else if !key.allowed_targets().contains(program_id) {
        Some(ErrorCode::ProgramNotAllowed)
    } else {
        None
    }
}

/// The key after a validation of `amount` that succeeded.
pub open spec fn charged(key: SessionKey, amount: u64) -> SessionKey {
    SessionKey { spent_amount: (key.spent_amount + amount) as u64, ..key }
}

/// What one `validate_session` call at time `now` may do to a key: leave it
/// as it was, or, while it is active and unexpired, charge an amount that fits
/// both caps.
pub open spec fn validate_step(before: SessionKey, after: SessionKey, now: i64) -> bool {
    after == before || exists|amount: u64|
        amount <= before.max_amount_per_tx
            && before.spent_amount + amount <= before.max_total_amount
            && before.is_active
            && now < before.expiry_timestamp
            && #[trigger] charged(before, amount) == after
}

/// Creates a session key for `session_pubkey`, owned by `owner`, with spent
/// amount zero. More than `MAX_ALLOWED_PROGRAMS` targets is an error, not a
/// truncation.
pub fn create_session_key(
    owner: Identity,
    session_pubkey: Identity,
    max_amount_per_tx: u64,
    max_total_amount: u64,
    now: i64,
    expiry_timestamp: i64,
    allowed_programs: Vec<Identity>,
) -> (r: Result<SessionKey, ErrorCode>)
    ensures
        r is Ok <==> allowed_programs@.len() <= MAX_ALLOWED_PROGRAMS,
        r is Err ==> r->Err_0 == ErrorCode::TooManyAllowedPrograms,
        r is Ok ==> ({
            let k = r->Ok_0;
            &&& k.wf()
            &&& k.owner@ == owner@
            &&& k.session_pubkey@ == session_pubkey@
            &&& k.max_amount_per_tx == max_amount_per_tx
            &&& k.max_total_amount == max_total_amount
            &&& k.spent_amount == 0
            &&& k.created_at == now
            &&& k.expiry_timestamp == expiry_timestamp
            &&& k.allowed_programs@ == allowed_programs@
            &&& k.is_active
        }),
{
    if allowed_programs.len() > MAX_ALLOWED_PROGRAMS {
        return Err(ErrorCode::TooManyAllowedPrograms);
    }
    Ok(SessionKey {
        owner,
        session_pubkey,
        max_amount_per_tx,
        max_total_amount,
        spent_amount: 0,
        created_at: now,
        expiry_timestamp,
        allowed_programs,
        is_active: true,
    })
}

/// Checks, without charging, whether `caller` may spend `amount` on
/// `program_id` at time `now`.
pub fn check_session(
    session_key: &SessionKey,
    caller: &Identity,
    now: i64,
    program_id: &Identity,
    amount: u64,
) -> (r: Result<(), ErrorCode>)
    ensures
        r is Ok <==> validation_error(*session_key, caller@, now, program_id@, amount) is None,
        r is Err ==> validation_error(*session_key, caller@, now, program_id@, amount) == Some(
            r->Err_0,
        ),
{
    if !caller.same_as(&session_key.session_pubkey) {
        return Err(ErrorCode::Unauthorized);
    }
    if !session_key.is_active {
        return Err(ErrorCode::SessionKeyNotActive);
    }
    if now >= session_key.expiry_timestamp {
        return Err(ErrorCode::SessionKeyExpired);
    }
    if amount > session_key.max_amount_per_tx {
        return Err(ErrorCode::AmountExceedsPerTxLimit);
    }
    if session_key.spent_amount > session_key.max_total_amount || amount
        > session_key.max_total_amount - session_key.spent_amount {
        return Err(ErrorCode::AmountExceedsTotalLimit);
    }
    if !session_key.allows_program(program_id) {
        return Err(ErrorCode::ProgramNotAllowed);
    }
    Ok(())
}

/// Validates a spend of `amount` on `program_id` by `caller` at time `now`
/// and, on success only, adds it to the spent amount.
pub fn validate_session(
    session_key: &mut SessionKey,
    caller: &Identity,
    now: i64,
    program_id: &Identity,
    amount: u64,
) -> (r: Result<(), ErrorCode>)
    ensures
        r is Ok <==> validation_error(*old(session_key), caller@, now, program_id@, amount) is None,
        r is Err ==> validation_error(*old(session_key), caller@, now, program_id@, amount)
            == Some(r->Err_0),
        r is Ok ==> *final(session_key) == charged(*old(session_key), amount),
        r is Err ==> *final(session_key) == *old(session_key),
        validate_step(*old(session_key), *final(session_key), now),
        final(session_key).spent_amount >= old(session_key).spent_amount,
        r is Ok ==> final(session_key).spent_amount <= final(session_key).max_total_amount,
{
    let checked = check_session(session_key, caller, now, program_id, amount);
    match checked {
        Ok(()) => {
            session_key.spent_amount = session_key.spent_amount + amount;
            assert(charged(*old(session_key), amount) == *session_key);
            Ok(())
        },
        Err(e) => Err(e),
    }
}

/// Deactivates the key; repeating it changes nothing. Only the owner may.
pub fn revoke_session_key(session_key: &mut SessionKey, caller: &Identity) -> (r: Result<
    (),
    ErrorCode,
>)
    ensures
        r is Ok <==> caller@ == old(session_key).owner@,
        r is Err ==> r->Err_0 == ErrorCode::Unauthorized && *final(session_key) == *old(
            session_key,
        ),
        r is Ok ==> *final(session_key) == (SessionKey { is_active: false, ..*old(session_key) }),
{
    if !caller.same_as(&session_key.owner) {
        return Err(ErrorCode::Unauthorized);
    }
    session_key.is_active = false;
    Ok(())
}

/// Replaces both caps. There is no floor against the amount already spent:
/// a total cap below it leaves the key `exhausted`, which `is_exhausted`
/// reports. Only the owner may.
pub fn update_limits(
    session_key: &mut SessionKey,
    caller: &Identity,
    max_amount_per_tx: u64,
    max_total_amount: u64,
) -> (r: Result<(), ErrorCode>)
    ensures
        r is Ok <==> caller@ == old(session_key).owner@,
        r is Err ==> r->Err_0 == ErrorCode::Unauthorized && *final(session_key) == *old(
            session_key,
        ),
        r is Ok ==> *final(session_key) == (SessionKey {
            max_amount_per_tx,
            max_total_amount,
            ..*old(session_key)
        }),
{
    if !caller.same_as(&session_key.owner) {
        return Err(ErrorCode::Unauthorized);
    }
    session_key.max_amount_per_tx = max_amount_per_tx;
    session_key.max_total_amount = max_total_amount;
    Ok(())
}

/// Decides whether `caller` may close the key and release its storage: the
/// owner may, whether or not the key was revoked first.
pub fn close_session_key(session_key: &SessionKey, caller: &Identity) -> (r: Result<
    (),
    ErrorCode,
>)
    ensures
        r is Ok <==> caller@ == session_key.owner@,
        r is Err ==> r->Err_0 == ErrorCode::Unauthorized,
{
    if !caller.same_as(&session_key.owner) {
        return Err(ErrorCode::Unauthorized);
    }
    Ok(())
}

} // verus!
