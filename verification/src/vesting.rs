//! The vesting schedule of one beneficiary and the claim computation.
//!
//! A `VestingAccount` records a linear release curve from `started_at` to
//! `end_at` over a fixed grant of `total_tokens`, gated by a cliff, together
//! with the cumulative amount already claimed. `initialize_vesting` validates
//! and creates such an account; `claim` computes the newly vested, unclaimed
//! amount and records its release.

use vstd::prelude::*;

use crate::errors::ErrorCode;

verus! {

/// One beneficiary's vesting schedule and claim progress.
///
/// The schedule fields are fixed at creation; `claimed_tokens` is the only
/// field a claim mutates. It starts at zero, never decreases, and never
/// exceeds `total_tokens`.
#[derive(Clone, Copy, Debug, PartialEq, Eq)]
pub struct VestingAccount {
    /// Identity authorized to claim from this schedule.
    pub beneficiary: [u8; 32],
    /// Total granted amount, fixed at creation and strictly positive.
    pub total_tokens: u64,
    /// When the schedule began (seconds since epoch); vesting grows linearly
    /// from here.
    pub started_at: i64,
    /// When the schedule ends; the full grant is vested from this moment on.
    pub end_at: i64,
    /// Cumulative amount released so far.
    pub claimed_tokens: u64,
    /// No claim is permitted at or before this timestamp.
    pub cliff_period_till: i64,
    /// Seed byte under which the account is addressed by the store.
    pub bump: u8,
}

impl VestingAccount {
    /// Well-formedness: a positive grant, a cliff lying inside the schedule
    /// bounds, and a claimed total within the grant.
    pub open spec fn wf(self) -> bool {
        &&& self.total_tokens > 0
        &&& self.started_at <= self.cliff_period_till
        &&& self.cliff_period_till < self.end_at
        &&& self.claimed_tokens <= self.total_tokens
    }

    /// Length of the whole schedule, in seconds.
    pub open spec fn vesting_duration(self) -> int {
        self.end_at - self.started_at
    }

    /// Seconds elapsed from the start of the schedule to `now`.
    pub open spec fn elapsed_at(self, now: int) -> int {
        now - self.started_at
    }

    /// The cliff gate: claims are admitted only strictly after the cliff.
    pub open spec fn cliff_passed(self, now: int) -> bool {
        self.cliff_period_till < now
    }

    /// Amount vested at `now`: the grant scaled by elapsed time over the
    /// whole duration, rounded down, and clamped to the grant so that
    /// moments past `end_at` vest no more than `total_tokens`.
    pub open spec fn vested_at(self, now: int) -> int {
        let proportional = (self.total_tokens * self.elapsed_at(now)) / self.vesting_duration();
        if proportional > self.total_tokens {
            self.total_tokens as int
        } else {
            proportional
        }
    }

    /// Amount a claim at `now` would release: vested to date minus already
    /// claimed.
    pub open spec fn claimable_at(self, now: int) -> int {
        self.vested_at(now) - self.claimed_tokens
    }

    /// Whether a claim at `now` releases anything: the cliff has passed and
    /// something new has vested.
    pub open spec fn claim_succeeds(self, now: int) -> bool {
        self.cliff_passed(now) && self.claimable_at(now) > 0
    }

    /// The account as a claim at `now` leaves it: on success the claimed
    /// total rises to the vested amount, otherwise nothing changes.
    pub open spec fn after_claim(self, now: int) -> VestingAccount {
        if self.claim_succeeds(now) {
            VestingAccount { claimed_tokens: self.vested_at(now) as u64, ..self }
        } else {
            self
        }
    }

    /// The schedule fields (everything but `claimed_tokens`) agree.
    pub open spec fn same_schedule(self, other: VestingAccount) -> bool {
        &&& self.beneficiary == other.beneficiary
        &&& self.total_tokens == other.total_tokens
        &&& self.started_at == other.started_at
        &&& self.end_at == other.end_at
        &&& self.cliff_period_till == other.cliff_period_till
        &&& self.bump == other.bump
    }
}

/// Registers a beneficiary's grant: validates the schedule and creates the
/// account, with `started_at` fixed to the current time and nothing claimed.
///
/// Validation order: a zero grant is rejected first, then an `end_at` not
/// strictly in the future, then a cliff that does not end strictly before
/// `end_at`. A cliff below `started_at` is not rejected here, so the
/// returned account is well-formed exactly when the caller chose a cliff no
/// earlier than the current time. The caller funds the vault with exactly
/// `total_tokens` in the same indivisible operation, or discards the account.
pub fn initialize_vesting(
    beneficiary: [u8; 32],
    total_tokens: u64,
    end_at: i64,
    cliff_period_till: i64,
    current_time: i64,
    bump: u8,
) -> (result: Result<VestingAccount, ErrorCode>)
    ensures
        result is Ok <==> total_tokens > 0 && end_at > current_time && cliff_period_till < end_at,
        total_tokens == 0 ==> result == Result::<VestingAccount, ErrorCode>::Err(
            ErrorCode::TokensTooLow,
        ),
        total_tokens > 0 && end_at <= current_time ==> result == Result::<
            VestingAccount,
            ErrorCode,
        >::Err(ErrorCode::EndTimeMustBeInFuture),
        total_tokens > 0 && end_at > current_time && cliff_period_till >= end_at ==> result
            == Result::<VestingAccount, ErrorCode>::Err(ErrorCode::InvalidCliffPeriod),
        result matches Ok(account) ==> account == (VestingAccount {
            beneficiary,
            total_tokens,
            started_at: current_time,
            end_at,
            claimed_tokens: 0u64,
            cliff_period_till,
            bump,
        }),
        result matches Ok(account) ==> (account.wf() <==> current_time <= cliff_period_till),
{
    if !(total_tokens > 0) {
        return Err(ErrorCode::TokensTooLow);
    }
    if !(end_at > current_time) {
        return Err(ErrorCode::EndTimeMustBeInFuture);
    }
    if !(cliff_period_till < end_at) {
        return Err(ErrorCode::InvalidCliffPeriod);
    }
    Ok(
        VestingAccount {
            beneficiary,
            total_tokens,
            started_at: current_time,
            end_at,
            claimed_tokens: 0,
            cliff_period_till,
            bump,
        },
    )
}

/// Reports whether an account is well formed, so that an unverified caller
/// can establish `claim`'s first precondition before invoking it.
pub fn is_well_formed(account: &VestingAccount) -> (well_formed: bool)
    ensures
        well_formed == account.wf(),
{
    account.total_tokens > 0 && account.started_at <= account.cliff_period_till
        && account.cliff_period_till < account.end_at && account.claimed_tokens
        <= account.total_tokens
}

/// The amount vested at `current_time`, once the cliff has passed.
///
/// The product of the grant and the elapsed seconds is taken at double
/// width, so the computation cannot overflow even with both near the top of
/// the 64-bit range; the clamp keeps moments past `end_at` from vesting more
/// than the grant.
fn vested_amount(account: &VestingAccount, current_time: i64) -> (vested: u64)
    requires
        account.wf(),
        account.cliff_passed(current_time as int),
    ensures
        vested == account.vested_at(current_time as int),
        vested <= account.total_tokens,
{
    let elapsed_time: u64 = ((current_time as i128) - (account.started_at as i128)) as u64;
    let total_time: u64 = ((account.end_at as i128) - (account.started_at as i128)) as u64;
    let total_tokens: u64 = account.total_tokens;

    proof {
        assert(total_tokens * elapsed_time <= u64::MAX * u64::MAX) by (nonlinear_arith);
    }
    let scaled: u128 = (total_tokens as u128) * (elapsed_time as u128);
    let proportional: u128 = scaled / (total_time as u128);
    if proportional > (total_tokens as u128) {
        total_tokens
    } else {
        proportional as u64
    }
}

/// Reports whether a claim at `current_time` meets `claim`'s monotonic-clock
/// premise: nothing has been claimed beyond what is vested by now. Under a
/// monotonic clock this always holds; an unverified caller tests it before
/// invoking `claim`.
pub fn claim_premise_holds(account: &VestingAccount, current_time: i64) -> (holds: bool)
    requires
        account.wf(),
    ensures
        holds == (account.cliff_passed(current_time as int) ==> account.claimed_tokens
            <= account.vested_at(current_time as int)),
{
    if !(account.cliff_period_till < current_time) {
        return true;
    }
    let vested_tokens: u64 = vested_amount(account, current_time);
    account.claimed_tokens <= vested_tokens
}

/// Computes and records the release of the currently claimable amount.
///
/// Rejects the claim while the cliff has not strictly passed, and when
/// nothing new has vested (which covers both a fully claimed account and a
/// moment too early for the next unit). On success it adds the released
/// amount to `claimed_tokens` before the caller requests the actual
/// transfer, and returns that amount. The product of the grant and the
/// elapsed seconds is taken at double width, so the computation cannot
/// overflow even with both near the top of the 64-bit range.
///
/// The second precondition is the reality of a monotonic clock: whatever was
/// claimed before was vested at some earlier moment, hence is vested at
/// `now` as well; without it the claimed total could exceed the vested
/// amount and the subtraction would have no meaning.
pub fn claim(vesting_account: &mut VestingAccount, current_time: i64) -> (result: Result<
    u64,
    ErrorCode,
>)
    requires
        old(vesting_account).wf(),
        old(vesting_account).cliff_passed(current_time as int) ==> old(
            vesting_account,
        ).claimed_tokens <= old(vesting_account).vested_at(current_time as int),
    ensures
        *final(vesting_account) == old(vesting_account).after_claim(current_time as int),
        result == (if old(vesting_account).claim_succeeds(current_time as int) {
            Result::<u64, ErrorCode>::Ok(
                old(vesting_account).claimable_at(current_time as int) as u64,
            )
        } else if !old(vesting_account).cliff_passed(current_time as int) {
            Result::<u64, ErrorCode>::Err(ErrorCode::CliffPeriodNotOver)
        } else {
            Result::<u64, ErrorCode>::Err(ErrorCode::AllTokensClaimed)
        }),
        final(vesting_account).wf(),
        old(vesting_account).same_schedule(*final(vesting_account)),
        old(vesting_account).claimed_tokens <= final(vesting_account).claimed_tokens,
        final(vesting_account).claimed_tokens <= final(vesting_account).total_tokens,
        result matches Ok(amount) ==> amount > 0 && old(vesting_account).claimed_tokens + amount
            == final(vesting_account).claimed_tokens,
        result is Err ==> *final(vesting_account) == *old(vesting_account),
{
    if !(vesting_account.cliff_period_till < current_time) {
        return Err(ErrorCode::CliffPeriodNotOver);
    }
    let vested_tokens: u64 = vested_amount(vesting_account, current_time);
    let claimed_tokens: u64 = vesting_account.claimed_tokens;
    let claimable_tokens: u64 = vested_tokens - claimed_tokens;

    if !(claimable_tokens > 0) {
        return Err(ErrorCode::AllTokensClaimed);
    }
    vesting_account.claimed_tokens = claimed_tokens + claimable_tokens;
    Ok(claimable_tokens)
}

} // verus!
