use vstd::prelude::*;

use crate::dca_vault::{after_cycle, fits_i64, Vault, vault_step};
use crate::session_keys::{validate_step, validation_error, SessionKey};

verus! {

/// Along any run of validations of one key, starting within its total cap,
/// the spent amount never decreases and never exceeds the total cap.
/// `h[i + 1]` is the key after the validation made at time `times[i]`.
pub proof fn lemma_spent_bounded_and_monotone(h: Seq<SessionKey>, times: Seq<i64>)
    requires
        h.len() > 0,
        times.len() + 1 == h.len(),
        h[0].spent_amount <= h[0].max_total_amount,
        forall|i: int| 0 <= i < times.len() ==> #[trigger] validate_step(h[i], h[i + 1], times[i]),
    ensures
        forall|i: int| 0 <= i < h.len() ==> #[trigger] h[i].spent_amount <= h[i].max_total_amount,
        forall|i: int, j: int|
            0 <= i <= j < h.len() ==> #[trigger] h[i].spent_amount <= #[trigger] h[j].spent_amount,
    decreases h.len(),
{
    if h.len() > 1 {
        let n = h.len() - 1;
        let p = h.drop_last();
        let q = times.drop_last();
        assert forall|i: int| 0 <= i < q.len() implies #[trigger] validate_step(p[i], p[i + 1], q[i]) by {
            assert(validate_step(h[i], h[i + 1], times[i]));
        }
        lemma_spent_bounded_and_monotone(p, q);
        let k = n - 1;
        assert(validate_step(h[k], h[k + 1], times[k]));
        assert(p[k] == h[k]);
        assert(h[n - 1].spent_amount <= h[n].spent_amount);
        assert(h[n].spent_amount <= h[n].max_total_amount);
        assert forall|i: int| 0 <= i < h.len() implies #[trigger] h[i].spent_amount
            <= h[i].max_total_amount by {
            if i < n {
                assert(p[i] == h[i]);
            }
        }
        assert forall|i: int, j: int| 0 <= i <= j < h.len() implies #[trigger] h[i].spent_amount
            <= #[trigger] h[j].spent_amount by {
            if j < n {
                assert(p[i] == h[i] && p[j] == h[j]);
            } else if i < n {
                assert(p[i] == h[i] && p[n - 1] == h[n - 1]);
            }
        }
    }
}

/// Once a key is revoked, or the clock has reached its expiry, every later
/// validation fails, whatever the caller, target and amount, and leaves the
/// key as it is. `times` is the non-decreasing clock of the calls;
/// `h[i + 1]` is the key after the call at `times[i]`.
pub proof fn lemma_rejects_after_revoke_or_expiry(h: Seq<SessionKey>, times: Seq<i64>)
    requires
        h.len() > 0,
        times.len() == h.len(),
        forall|i: int, j: int| 0 <= i <= j < times.len() ==> #[trigger] times[i] <= #[trigger] times[j],
        !h[0].is_active || times[0] >= h[0].expiry_timestamp,
        forall|i: int| 0 <= i < h.len() - 1 ==> #[trigger] validate_step(h[i], h[i + 1], times[i]),
    ensures
        forall|i: int| 0 <= i < h.len() ==> #[trigger] h[i] == h[0],
        forall|i: int, caller: Seq<u8>, target: Seq<u8>, amount: u64|
            0 <= i < h.len() ==> #[trigger] validation_error(h[i], caller, times[i], target, amount)
                is Some,
    decreases h.len(),
{
    if h.len() > 1 {
        let n = h.len() - 1;
        let p = h.drop_last();
        let q = times.drop_last();
        assert forall|i: int, j: int| 0 <= i <= j < q.len() implies #[trigger] q[i] <= #[trigger] q[j] by {
            assert(times[i] <= times[j]);
        }
        assert forall|i: int| 0 <= i < p.len() - 1 implies #[trigger] validate_step(p[i], p[i + 1], q[i]) by {
            assert(validate_step(h[i], h[i + 1], times[i]));
        }
        lemma_rejects_after_revoke_or_expiry(p, q);
        let k = n - 1;
        assert(validate_step(h[k], h[k + 1], times[k]));
        assert(times[0] <= times[k]);
        assert(p[k] == h[k] && q[k] == times[k]);
        assert(h[k] == h[0]);
        assert(h[n] == h[0]);
        assert forall|i: int| 0 <= i < h.len() implies #[trigger] h[i] == h[0] by {
            if i < n {
                assert(p[i] == h[i] && p[0] == h[0]);
            }
        }
    }
    assert forall|i: int, caller: Seq<u8>, target: Seq<u8>, amount: u64|
        0 <= i < h.len() implies #[trigger] validation_error(h[i], caller, times[i], target, amount)
        is Some by {
        assert(times[0] <= times[i]);
        assert(h[i] == h[0]);
    }
}

/// A target outside the allow-list is refused whatever the budget left.
pub proof fn lemma_unlisted_target_rejected(
    key: SessionKey,
    caller: Seq<u8>,
    now: i64,
    target: Seq<u8>,
    amount: u64,
)
    requires
        !key.allowed_targets().contains(target),
    ensures
        validation_error(key, caller, now, target, amount) is Some,
{
}

/// Along any run of vault operations from a well-formed vault, the executed
/// cycles never decrease and never exceed the total, and the vault stays
/// well-formed; each step's status change is one of those `vault_step` allows.
pub proof fn lemma_cycles_monotone_and_bounded(h: Seq<Vault>)
    requires
        h.len() > 0,
        h[0].wf(),
        forall|i: int| 0 <= i < h.len() - 1 ==> #[trigger] vault_step(h[i], h[i + 1]),
    ensures
        forall|i: int|
            0 <= i < h.len() ==> (#[trigger] h[i]).wf() && h[i].total_cycles == h[0].total_cycles
                && h[i].executed_cycles <= h[i].total_cycles,
        forall|i: int, j: int|
            0 <= i <= j < h.len() ==> #[trigger] h[i].executed_cycles
                <= #[trigger] h[j].executed_cycles,
    decreases h.len(),
{
    if h.len() > 1 {
        let n = h.len() - 1;
        let p = h.drop_last();
        assert forall|i: int| 0 <= i < p.len() - 1 implies #[trigger] vault_step(p[i], p[i + 1]) by {
            assert(vault_step(h[i], h[i + 1]));
        }
        lemma_cycles_monotone_and_bounded(p);
        let k = n - 1;
        assert(vault_step(h[k], h[k + 1]));
        assert(p[k] == h[k] && p[0] == h[0]);
        assert forall|i: int| 0 <= i < h.len() implies (#[trigger] h[i]).wf() && h[i].total_cycles
            == h[0].total_cycles && h[i].executed_cycles <= h[i].total_cycles by {
            if i < n {
                assert(p[i] == h[i]);
            }
        }
        assert forall|i: int, j: int| 0 <= i <= j < h.len() implies #[trigger] h[i].executed_cycles
            <= #[trigger] h[j].executed_cycles by {
            if j < n {
                assert(p[i] == h[i] && p[j] == h[j]);
            } else if i < n {
                assert(p[i] == h[i]);
            }
        }
    }
}

/// After a successful cycle at `now`, the vault is next due one period after
/// the cycle it just recorded; that is one period after the previously recorded
/// cycle exactly when the cycle ran at that same instant.
pub proof fn lemma_next_due_one_period_later(v: Vault, now: i64, received: u64)
    requires
        fits_i64(now as int, v.frequency_seconds as int),
    ensures
        after_cycle(v, now, received).next_execution == after_cycle(v, now, received).last_execution
            + v.frequency_seconds,
        after_cycle(v, now, received).next_execution == now + v.frequency_seconds,
        now == v.last_execution ==> after_cycle(v, now, received).next_execution
            == v.last_execution + v.frequency_seconds,
{
}

} // verus!
