//! The laws of the vesting engine, stated and proved over the claim model.
//!
//! Each lemma here is a property that holds of every schedule and every
//! moment, phrased over the spec functions that `claim`'s contract uses:
//! monotonicity and conservation of the claimed total across any sequence of
//! claims, the linearity of the release curve, full vesting at the end of
//! the schedule, the cliff gate, and the idempotence of back-to-back claims.

use vstd::arithmetic::div_mod::lemma_div_is_ordered;
use vstd::arithmetic::div_mod::lemma_div_multiples_vanish;
use vstd::arithmetic::div_mod::lemma_div_pos_is_pos;
use vstd::arithmetic::div_mod::lemma_fundamental_div_mod;
use vstd::arithmetic::div_mod::lemma_mod_division_less_than_divisor;
use vstd::arithmetic::div_mod::lemma_multiply_divide_lt;
use vstd::arithmetic::mul::lemma_mul_inequality;
use vstd::arithmetic::mul::lemma_mul_is_commutative;
use vstd::arithmetic::mul::lemma_mul_nonnegative;
use vstd::arithmetic::mul::lemma_mul_strict_inequality;
use vstd::prelude::*;

use crate::vesting::VestingAccount;

verus! {

/// The vested amount always lies between zero and the grant once the
/// schedule has started.
pub proof fn lemma_vested_bounds(account: VestingAccount, now: int)
    requires
        account.wf(),
        account.started_at <= now,
    ensures
        0 <= account.vested_at(now),
        account.vested_at(now) <= account.total_tokens,
{
    lemma_mul_nonnegative(account.total_tokens as int, account.elapsed_at(now));
    lemma_div_pos_is_pos(
        account.total_tokens * account.elapsed_at(now),
        account.vesting_duration(),
    );
}

/// Vesting never moves backwards: a later moment vests at least as much.
pub proof fn lemma_vested_monotonic(account: VestingAccount, earlier: int, later: int)
    requires
        account.wf(),
        earlier <= later,
    ensures
        account.vested_at(earlier) <= account.vested_at(later),
{
    let total = account.total_tokens as int;
    lemma_mul_inequality(account.elapsed_at(earlier), account.elapsed_at(later), total);
    lemma_mul_is_commutative(account.elapsed_at(earlier), total);
    lemma_mul_is_commutative(account.elapsed_at(later), total);
    lemma_div_is_ordered(
        total * account.elapsed_at(earlier),
        total * account.elapsed_at(later),
        account.vesting_duration(),
    );
}

/// Linearity of the release curve: strictly inside the schedule the clamp is
/// inactive, and the vested amount is the exact floor of the grant scaled by
/// elapsed time over the whole duration — the true proportional share lies
/// less than one unit above it.
pub proof fn lemma_linearity(account: VestingAccount, now: int)
    requires
        account.wf(),
        account.started_at < now < account.end_at,
    ensures
        account.vested_at(now) == account.total_tokens * account.elapsed_at(now)
            / account.vesting_duration(),
        account.vested_at(now) < account.total_tokens,
        account.vesting_duration() * account.vested_at(now) <= account.total_tokens
            * account.elapsed_at(now),
        account.total_tokens * account.elapsed_at(now) < account.vesting_duration() * (
        account.vested_at(now) + 1),
        account.claimed_tokens == 0 ==> account.claimable_at(now) == account.total_tokens
            * account.elapsed_at(now) / account.vesting_duration(),
{
    let total = account.total_tokens as int;
    let elapsed = account.elapsed_at(now);
    let duration = account.vesting_duration();
    let proportional = (total * elapsed) / duration;

    lemma_mul_strict_inequality(elapsed, duration, total);
    lemma_mul_is_commutative(elapsed, total);
    lemma_mul_is_commutative(duration, total);
    lemma_multiply_divide_lt(total * elapsed, duration, total);
    assert(proportional < total);

    lemma_fundamental_div_mod(total * elapsed, duration);
    lemma_mod_division_less_than_divisor(total * elapsed, duration);
    assert(duration * (proportional + 1) == duration * proportional + duration) by (nonlinear_arith);
}

/// Full vesting: from `end_at` on, the whole grant is vested, and a claim
/// leaves the account fully claimed whether or not it still had anything to
/// release.
pub proof fn lemma_full_vesting(account: VestingAccount, now: int)
    requires
        account.wf(),
        now >= account.end_at,
    ensures
        account.vested_at(now) == account.total_tokens,
        account.cliff_passed(now),
        account.claimable_at(now) == account.total_tokens - account.claimed_tokens,
        account.after_claim(now).claimed_tokens == account.total_tokens,
{
    let total = account.total_tokens as int;
    let elapsed = account.elapsed_at(now);
    let duration = account.vesting_duration();

    lemma_mul_inequality(duration, elapsed, total);
    lemma_mul_is_commutative(duration, total);
    lemma_mul_is_commutative(elapsed, total);
    lemma_div_is_ordered(total * duration, total * elapsed, duration);
    lemma_div_multiples_vanish(total, duration);
    assert(account.vested_at(now) == total);
}

/// Cliff gating: at or before the cliff no claim succeeds and the account is
/// left untouched.
pub proof fn lemma_cliff_gating(account: VestingAccount, now: int)
    requires
        now <= account.cliff_period_till,
    ensures
        !account.claim_succeeds(now),
        account.after_claim(now) == account,
{
}

/// One claim keeps the account well formed: the claimed total never
/// decreases, never exceeds the grant, and the schedule fields survive.
pub proof fn lemma_claim_monotonic(account: VestingAccount, now: int)
    requires
        account.wf(),
    ensures
        account.after_claim(now).wf(),
        account.same_schedule(account.after_claim(now)),
        account.claimed_tokens <= account.after_claim(now).claimed_tokens,
        account.after_claim(now).claimed_tokens <= account.total_tokens,
{
}

/// Claiming twice at the same moment: the second claim finds nothing new
/// vested, releases nothing, and changes nothing.
pub proof fn lemma_claim_idempotent(account: VestingAccount, now: int)
    requires
        account.wf(),
    ensures
        account.after_claim(now).after_claim(now) == account.after_claim(now),
        account.claim_succeeds(now) ==> account.after_claim(now).claimable_at(now) == 0,
        account.claim_succeeds(now) ==> !account.after_claim(now).claim_succeeds(now),
{
}

/// The account after a whole sequence of claims, each taken at its moment.
pub open spec fn claim_sequence(account: VestingAccount, times: Seq<int>) -> VestingAccount
    decreases times.len(),
{
    if times.len() == 0 {
        account
    } else {
        claim_sequence(account, times.drop_last()).after_claim(times.last())
    }
}

/// The sum of the amounts released by a whole sequence of claims.
pub open spec fn total_released(account: VestingAccount, times: Seq<int>) -> int
    decreases times.len(),
{
    if times.len() == 0 {
        0
    } else {
        let before = claim_sequence(account, times.drop_last());
        total_released(account, times.drop_last()) + (before.after_claim(
            times.last(),
        ).claimed_tokens - before.claimed_tokens)
    }
}

/// Monotonicity across any sequence of claims: the claimed total never
/// decreases, never exceeds the grant, and the schedule survives unchanged.
pub proof fn lemma_monotonicity(account: VestingAccount, times: Seq<int>)
    requires
        account.wf(),
    ensures
        claim_sequence(account, times).wf(),
        account.same_schedule(claim_sequence(account, times)),
        account.claimed_tokens <= claim_sequence(account, times).claimed_tokens,
        claim_sequence(account, times).claimed_tokens <= account.total_tokens,
    decreases times.len(),
{
    if times.len() > 0 {
        lemma_monotonicity(account, times.drop_last());
        lemma_claim_monotonic(claim_sequence(account, times.drop_last()), times.last());
    }
}

/// Conservation: the amounts released by a sequence of claims sum exactly to
/// the growth of the claimed total — for a fresh account, to its final
/// claimed total, which never exceeds the grant.
pub proof fn lemma_conservation(account: VestingAccount, times: Seq<int>)
    requires
        account.wf(),
    ensures
        account.claimed_tokens + total_released(account, times) == claim_sequence(
            account,
            times,
        ).claimed_tokens,
        0 <= total_released(account, times),
        account.claimed_tokens == 0 ==> total_released(account, times) == claim_sequence(
            account,
            times,
        ).claimed_tokens,
        account.claimed_tokens == 0 ==> total_released(account, times) <= account.total_tokens,
    decreases times.len(),
{
    if times.len() > 0 {
        lemma_conservation(account, times.drop_last());
        lemma_monotonicity(account, times.drop_last());
        lemma_claim_monotonic(claim_sequence(account, times.drop_last()), times.last());
    }
    lemma_monotonicity(account, times);
}

} // verus!
