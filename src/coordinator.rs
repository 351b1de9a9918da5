use vstd::prelude::*;

use crate::digest::{generate_kpi_hash, keccak256_of, kpi_message};
use crate::ledger::{ledger_fits, recorded};
use crate::limits::{
    admitted, apply_daily_limit, burn_amount, check_fresh, check_not_replayed, fresh_claims,
    is_replay, is_stale, record_claim, BURN_DIVISOR, MAX_DAILY_REWARDS, MAX_REWARD_AMOUNT,
};
use crate::signature::{signature_verification_data, verification_data};
use crate::types::{
    ClaimKey, ClaimReward, ClaimRewardView, ErrorCode, InitializeProgram, ProgramState, Pubkey,
    RewardClaimed, RewardState, RewardStateView,
};

verus! {

/// An authorized claim waiting for its token movements: mint `mint_amount`
/// to the participant, then burn `burn_amount` from them when it is not zero.
/// Settling it commits `reward_state` and adds `net_amount` and `burn_amount`
/// to the program totals.
#[derive(Clone, Debug, PartialEq, Eq)]
pub struct PendingIssuance {
    pub reward_state: RewardState,
    pub mint_amount: u64,
    pub burn_amount: u64,
    pub net_amount: u64,
    pub kpi_type: u8,
    pub timestamp: i64,
}

/// The mathematical value of a `PendingIssuance`.
pub struct PendingIssuanceView {
    pub reward_state: RewardStateView,
    pub mint_amount: u64,
    pub burn_amount: u64,
    pub net_amount: u64,
    pub kpi_type: u8,
    pub timestamp: i64,
}

impl View for PendingIssuance {
    type V = PendingIssuanceView;

    open spec fn view(&self) -> PendingIssuanceView {
        PendingIssuanceView {
            reward_state: self.reward_state@,
            mint_amount: self.mint_amount,
            burn_amount: self.burn_amount,
            net_amount: self.net_amount,
            kpi_type: self.kpi_type,
            timestamp: self.timestamp,
        }
    }
}

/// The outcome of a claim, checked in this order: the per-claim cap, the
/// signature verdict, freshness, replay of a claim already accepted, the
/// daily quota, and room in the program totals. An accepted claim joins the
/// participant's accepted claims, from which the stale ones are dropped.
pub open spec fn claim_decision(
    ctx: ClaimRewardView,
    amount: u64,
    kpi_type: u8,
    timestamp: i64,
    signature_accepted: bool,
    current_time: i64,
) -> Result<PendingIssuanceView, ErrorCode> {
    let key = ClaimKey { amount, kpi_type, timestamp };
    if amount > MAX_REWARD_AMOUNT {
        Err(ErrorCode::ExcessiveReward)
    } else if !signature_accepted {
        Err(ErrorCode::InvalidSignature)
    } else if is_stale(timestamp, current_time) {
        Err(ErrorCode::StaleData)
    } else if is_replay(ctx.reward_state, key) {
        Err(ErrorCode::ReplayedClaim)
    } else {
        match admitted(ctx.reward_state, amount, current_time) {
            None => Err(ErrorCode::DailyLimitExceeded),
            Some(daily_claimed) => {
                let burned = (amount / BURN_DIVISOR) as u64;
                let net = (amount - burned) as u64;
                if !ledger_fits(ctx.program_state, net, burned) {
                    Err(ErrorCode::LedgerOverflow)
                } else {
                    Ok(
                        PendingIssuanceView {
                            reward_state: RewardStateView {
                                last_claim: current_time,
                                daily_claimed,
                                recent_claims: fresh_claims(
                                    ctx.reward_state.recent_claims,
                                    current_time,
                                ).push(key),
                            },
                            mint_amount: amount,
                            burn_amount: burned,
                            net_amount: net,
                            kpi_type,
                            timestamp: current_time,
                        },
                    )
                }
            },
        }
    }
}

/// Sets up the program record: `authority` administers it and also signs
/// claims; both totals start at zero.
pub fn initialize_program(ctx: &mut InitializeProgram, authority: Pubkey)
    ensures
        final(ctx).program_state.authority == authority,
        final(ctx).program_state.signer_pubkey == authority,
        final(ctx).program_state.total_rewards_distributed == 0,
        final(ctx).program_state.total_tokens_burned == 0,
{
    ctx.program_state = ProgramState {
        authority,
        total_rewards_distributed: 0,
        total_tokens_burned: 0,
        signer_pubkey: authority,
    };
}

/// The first step of a claim: rejects an amount over the per-claim cap, and
/// otherwise returns the Ed25519 verification request for the claim's digest
/// under the program's signing key.
pub fn verification_request(
    ctx: &ClaimReward,
    amount: u64,
    kpi_type: u8,
    timestamp: i64,
    signature: &[u8; 64],
) -> (r: Result<Vec<u8>, ErrorCode>)
    ensures
        amount > MAX_REWARD_AMOUNT ==> r == Err::<Vec<u8>, ErrorCode>(ErrorCode::ExcessiveReward),
        amount <= MAX_REWARD_AMOUNT ==> r is Ok && r->Ok_0@ == verification_data(
            signature@,
            ctx.program_state.signer_pubkey.bytes@,
            keccak256_of(kpi_message(ctx.founder.bytes@, amount, kpi_type, timestamp)),
        ),
{
    if amount > MAX_REWARD_AMOUNT {
        return Err(ErrorCode::ExcessiveReward);
    }
    let digest = generate_kpi_hash(ctx.founder, amount, kpi_type, timestamp);
    Ok(signature_verification_data(signature, &ctx.program_state.signer_pubkey.bytes, &digest))
}

/// Decides a claim, given the verifier's verdict on its request and the
/// current time. Nothing is changed: an accepted claim comes back as the
/// issuance to carry out.
pub fn claim_reward(
    ctx: &ClaimReward,
    amount: u64,
    kpi_type: u8,
    timestamp: i64,
    signature_accepted: bool,
    current_time: i64,
) -> (r: Result<PendingIssuance, ErrorCode>)
    ensures
        match r {
            Ok(pending) => claim_decision(
                ctx@,
                amount,
                kpi_type,
                timestamp,
                signature_accepted,
                current_time,
            ) == Ok::<PendingIssuanceView, ErrorCode>(pending@),
            Err(e) => claim_decision(
                ctx@,
                amount,
                kpi_type,
                timestamp,
                signature_accepted,
                current_time,
            ) == Err::<PendingIssuanceView, ErrorCode>(e),
        },
        amount > MAX_REWARD_AMOUNT ==> r == Err::<PendingIssuance, ErrorCode>(
            ErrorCode::ExcessiveReward,
        ),
        is_stale(timestamp, current_time) ==> r is Err,
        amount <= MAX_REWARD_AMOUNT && signature_accepted && is_stale(timestamp, current_time)
            ==> r == Err::<PendingIssuance, ErrorCode>(ErrorCode::StaleData),
        r == Err::<PendingIssuance, ErrorCode>(ErrorCode::ReplayedClaim) <==> amount
            <= MAX_REWARD_AMOUNT && signature_accepted && !is_stale(timestamp, current_time)
            && is_replay(ctx.reward_state@, ClaimKey { amount, kpi_type, timestamp }),
        r is Ok ==> r->Ok_0.net_amount + r->Ok_0.burn_amount == amount && r->Ok_0.mint_amount
            == amount,
        r is Ok ==> r->Ok_0.reward_state.recent_claims@.contains(
            ClaimKey { amount, kpi_type, timestamp },
        ),
        r is Ok ==> r->Ok_0.reward_state.last_claim == current_time
            && r->Ok_0.reward_state.daily_claimed <= MAX_DAILY_REWARDS,
{
    if amount > MAX_REWARD_AMOUNT {
        return Err(ErrorCode::ExcessiveReward);
    }
    if !signature_accepted {
        return Err(ErrorCode::InvalidSignature);
    }
    check_fresh(timestamp, current_time)?;
    let key = ClaimKey { amount, kpi_type, timestamp };
    check_not_replayed(&ctx.reward_state, key)?;
    let daily_claimed = apply_daily_limit(&ctx.reward_state, amount, current_time)?;
    let burned = burn_amount(amount);
    let net = amount - burned;
    let mut totals = ctx.program_state;
    totals.record(net, burned)?;
    let recent_claims = record_claim(&ctx.reward_state.recent_claims, key, current_time);
    let pending = PendingIssuance {
        reward_state: RewardState { last_claim: current_time, daily_claimed, recent_claims },
        mint_amount: amount,
        burn_amount: burned,
        net_amount: net,
        kpi_type,
        timestamp: current_time,
    };
    assert(pending.reward_state.recent_claims@.last() == key);
    Ok(pending)
}

/// Completes a decided claim once the token movements have been attempted.
/// A failed mint (`MintFailed`: nothing happened), or a failed burn or totals
/// that would overflow after a mint (`PartialIssuance`: tokens moved but are
/// not recorded) leave every record as it was; otherwise the participant's
/// record and the totals are committed and the completion record is returned.
pub fn settle_issuance(ctx: &mut ClaimReward, pending: PendingIssuance, minted: bool, burned: bool) -> (r:
    Result<RewardClaimed, ErrorCode>)
    ensures
        !minted ==> r == Err::<RewardClaimed, ErrorCode>(ErrorCode::MintFailed),
        minted && pending.burn_amount > 0 && !burned ==> r == Err::<RewardClaimed, ErrorCode>(
            ErrorCode::PartialIssuance,
        ),
        minted && (pending.burn_amount == 0 || burned) && !ledger_fits(
            old(ctx).program_state,
            pending.net_amount,
            pending.burn_amount,
        ) ==> r == Err::<RewardClaimed, ErrorCode>(ErrorCode::PartialIssuance),
        r is Err ==> *final(ctx) == *old(ctx),
        final(ctx).program_state.total_rewards_distributed >= old(
            ctx,
        ).program_state.total_rewards_distributed,
        final(ctx).program_state.total_tokens_burned >= old(ctx).program_state.total_tokens_burned,
        r is Ok <==> minted && (pending.burn_amount == 0 || burned) && ledger_fits(
            old(ctx).program_state,
            pending.net_amount,
            pending.burn_amount,
        ),
        r is Ok ==> r == Ok::<RewardClaimed, ErrorCode>(
            RewardClaimed {
                founder: old(ctx).founder,
                amount: pending.net_amount,
                kpi_type: pending.kpi_type,
                timestamp: pending.timestamp,
            },
        ) && final(ctx).program_state == recorded(
            old(ctx).program_state,
            pending.net_amount,
            pending.burn_amount,
        ) && final(ctx).reward_state == pending.reward_state && final(ctx).founder == old(
            ctx,
        ).founder,
{
    if !minted {
        return Err(ErrorCode::MintFailed);
    }
    if pending.burn_amount > 0 && !burned {
        return Err(ErrorCode::PartialIssuance);
    }
    if ctx.program_state.record(pending.net_amount, pending.burn_amount).is_err() {
        return Err(ErrorCode::PartialIssuance);
    }
    let event = RewardClaimed {
        founder: ctx.founder,
        amount: pending.net_amount,
        kpi_type: pending.kpi_type,
        timestamp: pending.timestamp,
    };
    ctx.reward_state = pending.reward_state;
    Ok(event)
}

/// An accepted claim cannot be accepted again while it is fresh: once a claim
/// has been decided and settled, submitting the identical claim (same amount,
/// KPI code and signed timestamp) fails at any later time and whatever the
/// verifier says, with `ReplayedClaim` when it is fresh and verified.
pub proof fn lemma_settled_claim_not_replayable(
    ctx: ClaimRewardView,
    amount: u64,
    kpi_type: u8,
    timestamp: i64,
    current_time: i64,
    signature_accepted_again: bool,
    current_time_again: i64,
)
    requires
        claim_decision(ctx, amount, kpi_type, timestamp, true, current_time) is Ok,
    ensures
        ({
            let pending = claim_decision(ctx, amount, kpi_type, timestamp, true, current_time)->Ok_0;
            let settled = ClaimRewardView {
                program_state: recorded(
                    ctx.program_state,
                    pending.net_amount,
                    pending.burn_amount,
                ),
                reward_state: pending.reward_state,
                founder: ctx.founder,
            };
            let again = claim_decision(
                settled,
                amount,
                kpi_type,
                timestamp,
                signature_accepted_again,
                current_time_again,
            );
            &&& again is Err
            &&& signature_accepted_again && !is_stale(timestamp, current_time_again) ==> again
                == Err::<PendingIssuanceView, ErrorCode>(ErrorCode::ReplayedClaim)
        }),
{
    let pending = claim_decision(ctx, amount, kpi_type, timestamp, true, current_time)->Ok_0;
    let key = ClaimKey { amount, kpi_type, timestamp };
    let kept = fresh_claims(ctx.reward_state.recent_claims, current_time);
    assert(kept.push(key)[kept.len() as int] == key);
    assert(pending.reward_state.recent_claims.contains(key));
}

/// A claim the participant never had accepted is never refused as a replay:
/// a distinct claim that is verified, fresh and within the cap is decided by
/// the daily quota and the program totals alone.
pub proof fn lemma_distinct_claim_not_replay(
    ctx: ClaimRewardView,
    amount: u64,
    kpi_type: u8,
    timestamp: i64,
    current_time: i64,
)
    requires
        !ctx.reward_state.recent_claims.contains(ClaimKey { amount, kpi_type, timestamp }),
        amount <= MAX_REWARD_AMOUNT,
        !is_stale(timestamp, current_time),
    ensures
        claim_decision(ctx, amount, kpi_type, timestamp, true, current_time) is Err
            <==> claim_decision(ctx, amount, kpi_type, timestamp, true, current_time)
            == Err::<PendingIssuanceView, ErrorCode>(ErrorCode::DailyLimitExceeded)
            || claim_decision(ctx, amount, kpi_type, timestamp, true, current_time) == Err::<
            PendingIssuanceView,
            ErrorCode,
        >(ErrorCode::LedgerOverflow),
        claim_decision(ctx, amount, kpi_type, timestamp, true, current_time)
            == Err::<PendingIssuanceView, ErrorCode>(ErrorCode::DailyLimitExceeded)
            <==> admitted(ctx.reward_state, amount, current_time) is None,
{
}

} // verus!
