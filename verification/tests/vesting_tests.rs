use vesting_vault::errors::ErrorCode;
use vesting_vault::vault::initialize_vault;
use vesting_vault::vesting::claim;
use vesting_vault::vesting::initialize_vesting;
use vesting_vault::vesting::VestingAccount;

fn fresh_account(
    total_tokens: u64,
    started_at: i64,
    end_at: i64,
    cliff_period_till: i64,
) -> VestingAccount {
    let account = initialize_vesting([7u8; 32], total_tokens, end_at, cliff_period_till, started_at, 255)
        .expect("schedule should be accepted");
    assert_eq!(account.claimed_tokens, 0);
    account
}

#[test]
fn initialize_vault_records_fields() {
    let vault_state = initialize_vault([1u8; 32], 254, [2u8; 32], 253);
    assert_eq!(vault_state.vault_token_account, [1u8; 32]);
    assert_eq!(vault_state.vault_bump, 254);
    assert_eq!(vault_state.mint, [2u8; 32]);
    assert_eq!(vault_state.bump, 253);
}

#[test]
fn initialize_vesting_creates_account() {
    let account = initialize_vesting([9u8; 32], 1000, 1000, 100, 0, 251).unwrap();
    assert_eq!(account.beneficiary, [9u8; 32]);
    assert_eq!(account.total_tokens, 1000);
    assert_eq!(account.started_at, 0);
    assert_eq!(account.end_at, 1000);
    assert_eq!(account.claimed_tokens, 0);
    assert_eq!(account.cliff_period_till, 100);
    assert_eq!(account.bump, 251);
}

#[test]
fn initialize_vesting_rejects_zero_grant() {
    let result = initialize_vesting([0u8; 32], 0, 1000, 100, 0, 0);
    assert_eq!(result, Err(ErrorCode::TokensTooLow));
}

#[test]
fn initialize_vesting_rejects_end_not_in_future() {
    let result = initialize_vesting([0u8; 32], 1000, 500, 100, 500, 0);
    assert_eq!(result, Err(ErrorCode::EndTimeMustBeInFuture));
    let result = initialize_vesting([0u8; 32], 1000, 400, 100, 500, 0);
    assert_eq!(result, Err(ErrorCode::EndTimeMustBeInFuture));
}

#[test]
fn initialize_vesting_rejects_cliff_at_or_after_end() {
    let result = initialize_vesting([0u8; 32], 1000, 1000, 1000, 0, 0);
    assert_eq!(result, Err(ErrorCode::InvalidCliffPeriod));
    let result = initialize_vesting([0u8; 32], 1000, 1000, 2000, 0, 0);
    assert_eq!(result, Err(ErrorCode::InvalidCliffPeriod));
}

#[test]
fn initialize_vesting_validates_in_order() {
    // A zero grant is reported before the bad end time and the bad cliff.
    let result = initialize_vesting([0u8; 32], 0, -10, 50, 0, 0);
    assert_eq!(result, Err(ErrorCode::TokensTooLow));
    // The bad end time is reported before the bad cliff.
    let result = initialize_vesting([0u8; 32], 5, -10, 50, 0, 0);
    assert_eq!(result, Err(ErrorCode::EndTimeMustBeInFuture));
}

#[test]
fn initialize_vesting_accepts_cliff_before_start() {
    // A cliff earlier than the current time is not rejected; such a
    // schedule simply has no waiting period in practice.
    let account = initialize_vesting([0u8; 32], 1000, 2000, 500, 1000, 0).unwrap();
    assert_eq!(account.started_at, 1000);
    assert_eq!(account.cliff_period_till, 500);
}

#[test]
fn claim_before_cliff_fails() {
    let mut account = fresh_account(1000, 0, 1000, 100);
    let result = claim(&mut account, 50);
    assert_eq!(result, Err(ErrorCode::CliffPeriodNotOver));
    assert_eq!(account.claimed_tokens, 0);
}

#[test]
fn claim_exactly_at_cliff_fails() {
    // The comparison is strict: a claim at the very cliff moment is rejected.
    let mut account = fresh_account(1000, 0, 1000, 100);
    let result = claim(&mut account, 100);
    assert_eq!(result, Err(ErrorCode::CliffPeriodNotOver));
    assert_eq!(account.claimed_tokens, 0);
}

#[test]
fn claim_just_after_cliff_releases_prorata() {
    let mut account = fresh_account(1000, 0, 1000, 100);
    let result = claim(&mut account, 101);
    assert_eq!(result, Ok(101));
    assert_eq!(account.claimed_tokens, 101);
}

#[test]
fn scenario_linear_release() {
    let mut account = fresh_account(1000, 0, 1000, 100);

    assert_eq!(claim(&mut account, 50), Err(ErrorCode::CliffPeriodNotOver));
    assert_eq!(account.claimed_tokens, 0);

    assert_eq!(claim(&mut account, 500), Ok(500));
    assert_eq!(account.claimed_tokens, 500);

    assert_eq!(claim(&mut account, 1000), Ok(500));
    assert_eq!(account.claimed_tokens, 1000);

    assert_eq!(claim(&mut account, 2000), Err(ErrorCode::AllTokensClaimed));
    assert_eq!(account.claimed_tokens, 1000);
}

#[test]
fn claim_twice_without_time_elapsing_is_a_noop() {
    let mut account = fresh_account(1000, 0, 1000, 100);
    assert_eq!(claim(&mut account, 500), Ok(500));
    let second = claim(&mut account, 500);
    assert_eq!(second, Err(ErrorCode::AllTokensClaimed));
    assert_eq!(account.claimed_tokens, 500);
}

#[test]
fn claim_rounds_vested_amount_down() {
    // 10 tokens over 3 seconds: after 1 second exactly floor(10/3) = 3 vest.
    let mut account = fresh_account(10, 0, 3, 0);
    assert_eq!(claim(&mut account, 1), Ok(3));
    assert_eq!(account.claimed_tokens, 3);
    // After 2 seconds floor(20/3) = 6 have vested; 3 more are claimable.
    assert_eq!(claim(&mut account, 2), Ok(3));
    assert_eq!(account.claimed_tokens, 6);
}

#[test]
fn claim_fails_when_nothing_new_has_vested() {
    // Not yet fully claimed, but no whole unit has vested since last time.
    let mut account = fresh_account(10, 0, 1000, 0);
    assert_eq!(claim(&mut account, 100), Ok(1));
    assert_eq!(claim(&mut account, 150), Err(ErrorCode::AllTokensClaimed));
    assert_eq!(account.claimed_tokens, 1);
}

#[test]
fn claim_after_end_releases_everything() {
    let mut account = fresh_account(777, 0, 1000, 100);
    assert_eq!(claim(&mut account, 5000), Ok(777));
    assert_eq!(account.claimed_tokens, 777);
}

#[test]
fn claim_at_end_releases_everything() {
    let mut account = fresh_account(777, 0, 1000, 100);
    assert_eq!(claim(&mut account, 1000), Ok(777));
    assert_eq!(account.claimed_tokens, 777);
}

#[test]
fn claimed_total_is_monotonic_and_bounded() {
    let mut account = fresh_account(999, 0, 1000, 10);
    let mut previous: u64 = 0;
    let times: Vec<i64> = vec![5, 10, 11, 50, 300, 300, 301, 650, 999, 1000, 1500];
    for now in times {
        let _ = claim(&mut account, now);
        assert!(account.claimed_tokens >= previous);
        assert!(account.claimed_tokens <= account.total_tokens);
        previous = account.claimed_tokens;
    }
    assert_eq!(account.claimed_tokens, 999);
}

#[test]
fn releases_sum_to_final_claimed_total() {
    let mut account = fresh_account(12345, 0, 10000, 100);
    let mut released_sum: u64 = 0;
    let times: Vec<i64> = vec![50, 150, 150, 2500, 2500, 7000, 9999, 10000, 20000];
    for now in times {
        if let Ok(amount) = claim(&mut account, now) {
            assert!(amount > 0);
            released_sum += amount;
        }
    }
    assert_eq!(released_sum, account.claimed_tokens);
    assert_eq!(account.claimed_tokens, 12345);
}

#[test]
fn near_maximal_grant_and_elapsed_do_not_overflow() {
    // Grant and elapsed time both at the top of the 64-bit range.
    let mut account = fresh_account(u64::MAX, i64::MIN, i64::MAX, i64::MIN);
    assert_eq!(claim(&mut account, i64::MAX), Ok(u64::MAX));
    assert_eq!(account.claimed_tokens, u64::MAX);
}

#[test]
fn near_maximal_grant_midway_stays_clamped() {
    let mut account = fresh_account(u64::MAX, 0, i64::MAX, 0);
    let halfway = i64::MAX / 2;
    let released = claim(&mut account, halfway).unwrap();
    assert!(released <= u64::MAX / 2);
    assert!(account.claimed_tokens <= account.total_tokens);
    assert_eq!(claim(&mut account, i64::MAX), Ok(u64::MAX - released));
    assert_eq!(account.claimed_tokens, u64::MAX);
}

#[test]
fn well_formedness_tracks_the_invariant() {
    let account = fresh_account(1000, 0, 1000, 100);
    assert!(vesting_vault::vesting::is_well_formed(&account));
    // A cliff placed before the schedule start breaks the invariant.
    let skewed = initialize_vesting([0u8; 32], 1000, 2000, 500, 1000, 0).unwrap();
    assert!(!vesting_vault::vesting::is_well_formed(&skewed));
}

#[test]
fn claim_premise_holds_under_a_monotonic_clock() {
    let mut account = fresh_account(1000, 0, 1000, 100);
    assert!(vesting_vault::vesting::claim_premise_holds(&account, 50));
    assert!(vesting_vault::vesting::claim_premise_holds(&account, 500));
    assert_eq!(claim(&mut account, 500), Ok(500));
    // Later moments still satisfy the premise; an earlier one no longer does.
    assert!(vesting_vault::vesting::claim_premise_holds(&account, 600));
    assert!(!vesting_vault::vesting::claim_premise_holds(&account, 200));
    // At or before the cliff the premise is vacuous.
    assert!(vesting_vault::vesting::claim_premise_holds(&account, 100));
}

#[test]
fn error_messages_match_their_codes() {
    assert_eq!(ErrorCode::VaultOutOfToken.message(), "Vault of out tokens");
    assert_eq!(
        ErrorCode::CliffPeriodNotOver.message(),
        "Cliff period is Active, You can start claiming after it ends"
    );
    assert_eq!(
        ErrorCode::AllTokensClaimed.message(),
        "All tokens claimed, no vested tokens available"
    );
    assert_eq!(ErrorCode::TokensTooLow.message(), "Total tokens must be greater than zero");
    assert_eq!(ErrorCode::EndTimeMustBeInFuture.message(), "End time must be in the future");
    assert_eq!(
        ErrorCode::InvalidCliffPeriod.message(),
        "Cliff period till must be between started_at and end_at"
    );
}
