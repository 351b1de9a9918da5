use kpi_rewards::coordinator::{
    claim_reward, initialize_program, settle_issuance, verification_request, PendingIssuance,
};
use kpi_rewards::digest::{generate_kpi_hash, kpi_message_bytes};
use kpi_rewards::limits::{
    apply_daily_limit, burn_amount, calendar_day, check_fresh, MAX_DAILY_REWARDS,
    MAX_REWARD_AMOUNT,
};
use kpi_rewards::signature::signature_verification_data;
use kpi_rewards::types::{
    ClaimKey, ClaimReward, ErrorCode, InitializeProgram, ProgramState, Pubkey, RewardClaimed, RewardState,
};

const DAY: i64 = 86400;

fn key(first: u8) -> Pubkey {
    let mut bytes = [0u8; 32];
    for (i, b) in bytes.iter_mut().enumerate() {
        *b = first.wrapping_add(i as u8);
    }
    Pubkey::new_from_array(bytes)
}

fn context(last_claim: i64, daily_claimed: u64) -> ClaimReward {
    let signer = key(100);
    ClaimReward {
        program_state: ProgramState {
            authority: signer,
            total_rewards_distributed: 0,
            total_tokens_burned: 0,
            signer_pubkey: signer,
        },
        reward_state: RewardState { last_claim, daily_claimed, recent_claims: Vec::new() },
        founder: key(1),
    }
}

#[test]
fn claim_message_layout() {
    let founder = key(1);
    let bytes = kpi_message_bytes(&founder, 250, 3, 1_700_000_000);
    let mut expected: Vec<u8> = (1u8..=32).collect();
    expected.extend_from_slice(&[250, 0, 0, 0, 0, 0, 0, 0]);
    expected.push(3);
    expected.extend_from_slice(&1_700_000_000i64.to_le_bytes());
    assert_eq!(bytes, expected);
    let negative = kpi_message_bytes(&founder, 250, 3, -5);
    assert_eq!(&negative[41..], &[0xfb, 0xff, 0xff, 0xff, 0xff, 0xff, 0xff, 0xff]);
}

#[test]
fn digest_of_known_claim() {
    let digest = generate_kpi_hash(key(1), 250, 3, 1_700_000_000);
    assert_eq!(
        digest,
        [
            1, 246, 191, 45, 30, 14, 227, 132, 187, 156, 107, 113, 222, 235, 22, 104, 5, 245, 189,
            27, 175, 8, 136, 198, 42, 87, 245, 207, 81, 124, 234, 149
        ]
    );
    let before_epoch = generate_kpi_hash(key(1), 250, 3, -5);
    assert_eq!(
        before_epoch,
        [
            107, 174, 6, 248, 92, 82, 10, 236, 191, 59, 99, 172, 28, 42, 215, 43, 204, 92, 80, 208,
            24, 246, 117, 196, 23, 39, 5, 7, 30, 130, 191, 93
        ]
    );
}

#[test]
fn digest_is_deterministic_and_sensitive_to_each_field() {
    let base = generate_kpi_hash(key(1), 250, 3, 1_700_000_000);
    assert_eq!(base, generate_kpi_hash(key(1), 250, 3, 1_700_000_000));
    let mut flipped = key(1).to_bytes();
    flipped[31] ^= 1;
    assert_ne!(base, generate_kpi_hash(Pubkey::new_from_array(flipped), 250, 3, 1_700_000_000));
    assert_ne!(base, generate_kpi_hash(key(1), 251, 3, 1_700_000_000));
    assert_ne!(base, generate_kpi_hash(key(1), 250, 2, 1_700_000_000));
    assert_ne!(base, generate_kpi_hash(key(1), 250, 3, 1_700_000_001));
}

#[test]
fn verification_data_layout() {
    let signature = [7u8; 64];
    let signer = [9u8; 32];
    let digest = [5u8; 32];
    let data = signature_verification_data(&signature, &signer, &digest);
    assert_eq!(data.len(), 168);
    assert_eq!(&data[0..64], &signature[..]);
    assert_eq!(&data[64..96], &[0u8; 32][..]);
    assert_eq!(&data[96..128], &signer[..]);
    assert_eq!(&data[128..160], &digest[..]);
    assert_eq!(&data[160..168], &[32, 0, 0, 0, 0, 0, 0, 0]);
}

#[test]
fn verification_request_covers_digest_and_signer() {
    let ctx = context(0, 0);
    let signature = [3u8; 64];
    let request = verification_request(&ctx, 250, 3, 1_700_000_000, &signature).unwrap();
    let digest = generate_kpi_hash(ctx.founder, 250, 3, 1_700_000_000);
    let expected =
        signature_verification_data(&signature, &ctx.program_state.signer_pubkey.to_bytes(), &digest);
    assert_eq!(request, expected);
    let mut flipped = signature;
    flipped[0] ^= 0x80;
    assert_ne!(request, verification_request(&ctx, 250, 3, 1_700_000_000, &flipped).unwrap());
    assert_ne!(request, verification_request(&ctx, 250, 4, 1_700_000_000, &signature).unwrap());
}

#[test]
fn verification_request_rejects_excessive_amount() {
    let ctx = context(0, 0);
    assert_eq!(
        verification_request(&ctx, 1001, 3, 0, &[0u8; 64]),
        Err(ErrorCode::ExcessiveReward)
    );
}

#[test]
fn excessive_reward_rejected_first() {
    let ctx = context(0, 0);
    let now = 10 * DAY;
    assert_eq!(
        claim_reward(&ctx, MAX_REWARD_AMOUNT + 1, 1, now, true, now),
        Err(ErrorCode::ExcessiveReward)
    );
    assert_eq!(claim_reward(&ctx, u64::MAX, 1, 0, false, now), Err(ErrorCode::ExcessiveReward));
    assert!(claim_reward(&ctx, MAX_REWARD_AMOUNT, 1, now, true, now).is_ok());
}

#[test]
fn rejected_signature() {
    let ctx = context(0, 0);
    let now = 10 * DAY;
    assert_eq!(claim_reward(&ctx, 10, 1, now, false, now), Err(ErrorCode::InvalidSignature));
}

#[test]
fn stale_claims_rejected() {
    let ctx = context(0, 0);
    let now = 10 * DAY;
    assert_eq!(claim_reward(&ctx, 10, 1, now - 301, true, now), Err(ErrorCode::StaleData));
    assert_eq!(claim_reward(&ctx, 10, 1, i64::MIN, true, i64::MAX), Err(ErrorCode::StaleData));
    assert!(claim_reward(&ctx, 10, 1, now - 300, true, now).is_ok());
    assert!(claim_reward(&ctx, 10, 1, now + 1000, true, now).is_ok());
    assert_eq!(check_fresh(now - 301, now), Err(ErrorCode::StaleData));
    assert_eq!(check_fresh(now - 300, now), Ok(()));
}

#[test]
fn same_day_limit_enforced() {
    let today = 20 * DAY + 1000;
    let ctx = context(today, 4500);
    let now = today + 60;
    assert_eq!(
        claim_reward(&ctx, 600, 1, now, true, now),
        Err(ErrorCode::DailyLimitExceeded)
    );
    let pending = claim_reward(&ctx, 400, 1, now, true, now).unwrap();
    assert_eq!(
        pending.reward_state,
        RewardState {
            last_claim: now,
            daily_claimed: 4900,
            recent_claims: vec![ClaimKey { amount: 400, kpi_type: 1, timestamp: now }],
        }
    );
    let mut state = ctx.clone();
    settle_issuance(&mut state, pending.clone(), true, true).unwrap();
    assert_eq!(state.reward_state.daily_claimed, 4900);
    assert_eq!(state.reward_state.last_claim, now);
}

#[test]
fn new_day_resets_quota() {
    let yesterday = 30 * DAY + 5000;
    let now = 31 * DAY + 100;
    let state = RewardState { last_claim: yesterday, daily_claimed: 4999, recent_claims: Vec::new() };
    assert_eq!(
        apply_daily_limit(&state, 4999, now),
        Ok(4999)
    );
    let ctx = context(yesterday, 4999);
    let pending = claim_reward(&ctx, 900, 1, now, true, now).unwrap();
    assert_eq!(pending.reward_state.daily_claimed, 900);
}

#[test]
fn day_boundary_is_utc_floor() {
    let before_midnight = 40 * DAY - 1;
    let after_midnight = 40 * DAY + 1;
    let state = RewardState {
        last_claim: before_midnight,
        daily_claimed: MAX_DAILY_REWARDS,
        recent_claims: Vec::new(),
    };
    assert_eq!(
        apply_daily_limit(&state, 1, before_midnight),
        Err(ErrorCode::DailyLimitExceeded)
    );
    assert_eq!(
        apply_daily_limit(&state, 1, after_midnight),
Ok(1)
    );
}

#[test]
fn calendar_days() {
    assert_eq!(calendar_day(0), 0);
    assert_eq!(calendar_day(86399), 0);
    assert_eq!(calendar_day(86400), 1);
    assert_eq!(calendar_day(-1), -1);
    assert_eq!(calendar_day(-86400), -1);
    assert_eq!(calendar_day(-86401), -2);
    assert_eq!(calendar_day(i64::MIN), i64::MIN.div_euclid(86400));
}

#[test]
fn burn_of_two_hundred_fifty() {
    let now = 50 * DAY;
    let mut ctx = context(0, 0);
    ctx.program_state.total_rewards_distributed = 1000;
    ctx.program_state.total_tokens_burned = 10;
    let pending = claim_reward(&ctx, 250, 7, now - 5, true, now).unwrap();
    assert_eq!(
        pending,
        PendingIssuance {
            reward_state: RewardState {
                last_claim: now,
                daily_claimed: 250,
                recent_claims: vec![ClaimKey { amount: 250, kpi_type: 7, timestamp: now - 5 }],
            },
            mint_amount: 250,
            burn_amount: 2,
            net_amount: 248,
            kpi_type: 7,
            timestamp: now,
        }
    );
    let event = settle_issuance(&mut ctx, pending.clone(), true, true).unwrap();
    assert_eq!(event, RewardClaimed { founder: key(1), amount: 248, kpi_type: 7, timestamp: now });
    assert_eq!(ctx.program_state.total_rewards_distributed, 1248);
    assert_eq!(ctx.program_state.total_tokens_burned, 12);
}

#[test]
fn small_claim_burns_nothing() {
    let now = 60 * DAY;
    let mut ctx = context(0, 0);
    assert_eq!(burn_amount(50), 0);
    assert_eq!(burn_amount(99), 0);
    assert_eq!(burn_amount(100), 1);
    let pending = claim_reward(&ctx, 50, 1, now, true, now).unwrap();
    assert_eq!(pending.burn_amount, 0);
    let event = settle_issuance(&mut ctx, pending.clone(), true, false).unwrap();
    assert_eq!(event.amount, 50);
    assert_eq!(ctx.program_state.total_rewards_distributed, 50);
    assert_eq!(ctx.program_state.total_tokens_burned, 0);
}

#[test]
fn failed_mint_changes_nothing() {
    let now = 70 * DAY;
    let mut ctx = context(0, 0);
    let before = ctx.clone();
    let pending = claim_reward(&ctx, 500, 1, now, true, now).unwrap();
    assert_eq!(settle_issuance(&mut ctx, pending.clone(), false, false), Err(ErrorCode::MintFailed));
    assert_eq!(ctx, before);
}

#[test]
fn failed_burn_is_partial_issuance() {
    let now = 70 * DAY;
    let mut ctx = context(0, 0);
    let before = ctx.clone();
    let pending = claim_reward(&ctx, 500, 1, now, true, now).unwrap();
    assert_eq!(settle_issuance(&mut ctx, pending.clone(), true, false), Err(ErrorCode::PartialIssuance));
    assert_eq!(ctx, before);
}

#[test]
fn ledger_overflow_rejected() {
    let now = 80 * DAY;
    let mut ctx = context(0, 0);
    ctx.program_state.total_rewards_distributed = u64::MAX - 10;
    assert_eq!(claim_reward(&ctx, 500, 1, now, true, now), Err(ErrorCode::LedgerOverflow));
    let pending = PendingIssuance {
        reward_state: RewardState {
            last_claim: now,
            daily_claimed: 500,
            recent_claims: vec![ClaimKey { amount: 500, kpi_type: 1, timestamp: now }],
        },
        mint_amount: 500,
        burn_amount: 5,
        net_amount: 495,
        kpi_type: 1,
        timestamp: now,
    };
    let before = ctx.clone();
    assert_eq!(settle_issuance(&mut ctx, pending.clone(), true, true), Err(ErrorCode::PartialIssuance));
    assert_eq!(ctx, before);
}

#[test]
fn record_adds_to_totals() {
    let mut state = context(0, 0).program_state;
    assert_eq!(state.record(248, 2), Ok(()));
    assert_eq!(state.total_rewards_distributed, 248);
    assert_eq!(state.total_tokens_burned, 2);
    state.total_tokens_burned = u64::MAX;
    let before = state.clone();
    assert_eq!(state.record(1, 1), Err(ErrorCode::LedgerOverflow));
    assert_eq!(state, before);
}

#[test]
fn initialize_sets_authority_and_signer() {
    let mut ctx = InitializeProgram { program_state: context(0, 0).program_state };
    ctx.program_state.total_rewards_distributed = 77;
    initialize_program(&mut ctx, key(200));
    assert_eq!(ctx.program_state.authority, key(200));
    assert_eq!(ctx.program_state.signer_pubkey, key(200));
    assert_eq!(ctx.program_state.total_rewards_distributed, 0);
    assert_eq!(ctx.program_state.total_tokens_burned, 0);
}

#[test]
fn identical_claim_within_window_rejected() {
    let now = 90 * DAY + 10;
    let mut ctx = context(0, 0);
    let first = claim_reward(&ctx, 700, 2, now - 20, true, now).unwrap();
    settle_issuance(&mut ctx, first.clone(), true, true).unwrap();
    let after_first = ctx.clone();
    assert_eq!(
        claim_reward(&ctx, 700, 2, now - 20, true, now + 5),
        Err(ErrorCode::ReplayedClaim)
    );
    assert_eq!(ctx, after_first);
    assert_eq!(ctx.program_state.total_rewards_distributed, 693);
    assert_eq!(ctx.program_state.total_tokens_burned, 7);
    assert_eq!(ctx.reward_state.daily_claimed, 700);
}

#[test]
fn distinct_claims_accepted_in_any_order() {
    let now = 95 * DAY + 10;
    let mut ctx = context(0, 0);
    let first = claim_reward(&ctx, 100, 2, now - 20, true, now).unwrap();
    settle_issuance(&mut ctx, first, true, true).unwrap();
    let earlier = claim_reward(&ctx, 100, 3, now - 21, true, now + 1).unwrap();
    assert_eq!(earlier.reward_state.daily_claimed, 200);
    settle_issuance(&mut ctx, earlier, true, true).unwrap();
    let same_time_other_amount = claim_reward(&ctx, 150, 2, now - 20, true, now + 2).unwrap();
    assert_eq!(same_time_other_amount.reward_state.daily_claimed, 350);
    assert_eq!(
        claim_reward(&ctx, 100, 3, now - 21, true, now + 3),
        Err(ErrorCode::ReplayedClaim)
    );
}

#[test]
fn over_quota_reported_as_daily_limit_not_replay() {
    let now = 97 * DAY + 1000;
    let mut ctx = context(0, 0);
    let first = claim_reward(&ctx, 1000, 1, now, true, now).unwrap();
    settle_issuance(&mut ctx, first, true, true).unwrap();
    ctx.reward_state.daily_claimed = 4500;
    assert_eq!(
        claim_reward(&ctx, 600, 1, now - 50, true, now + 1),
        Err(ErrorCode::DailyLimitExceeded)
    );
}

#[test]
fn stale_entries_pruned_on_acceptance() {
    let now = 98 * DAY + 1000;
    let mut ctx = context(0, 0);
    let first = claim_reward(&ctx, 10, 1, now, true, now).unwrap();
    settle_issuance(&mut ctx, first, true, true).unwrap();
    let later = now + 400;
    let second = claim_reward(&ctx, 10, 1, later, true, later).unwrap();
    assert_eq!(
        second.reward_state.recent_claims,
        vec![ClaimKey { amount: 10, kpi_type: 1, timestamp: later }]
    );
    let soon = now + 100;
    let third = claim_reward(&ctx, 20, 1, soon, true, soon).unwrap();
    assert_eq!(
        third.reward_state.recent_claims,
        vec![
            ClaimKey { amount: 10, kpi_type: 1, timestamp: now },
            ClaimKey { amount: 20, kpi_type: 1, timestamp: soon }
        ]
    );
}

#[test]
fn unsettled_claim_is_not_a_replay_mark() {
    let now = 96 * DAY;
    let mut ctx = context(0, 0);
    let first = claim_reward(&ctx, 300, 1, now, true, now).unwrap();
    assert_eq!(settle_issuance(&mut ctx, first.clone(), false, false), Err(ErrorCode::MintFailed));
    assert!(claim_reward(&ctx, 300, 1, now, true, now + 1).is_ok());
}
