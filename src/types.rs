use vstd::prelude::*;

verus! {

/// A 32-byte account identity: a participant, an administrator or a signing key.
#[derive(Clone, Copy, Debug, PartialEq, Eq)]
pub struct Pubkey {
    pub bytes: [u8; 32],
}

impl Pubkey {
    pub fn new_from_array(bytes: [u8; 32]) -> (r: Pubkey)
        ensures
            r.bytes@ == bytes@,
    {
        Pubkey { bytes }
    }

    pub fn to_bytes(&self) -> (r: [u8; 32])
        ensures
            r@ == self.bytes@,
    {
        self.bytes
    }
}

/// The program-wide record: who administers it, which key signs claims, and
/// the cumulative amounts issued (net of burn) and burned.
#[derive(Clone, Copy, Debug, PartialEq, Eq)]
pub struct ProgramState {
    pub authority: Pubkey,
    pub total_rewards_distributed: u64,
    pub total_tokens_burned: u64,
    pub signer_pubkey: Pubkey,
}

/// What identifies one signed claim of a participant: the amount, the KPI
/// code and the signed timestamp.
#[derive(Clone, Copy, Debug, PartialEq, Eq, Structural)]
pub struct ClaimKey {
    pub amount: u64,
    pub kpi_type: u8,
    pub timestamp: i64,
}

/// Per-participant record: the time of the last accepted claim, the amount
/// accrued on that claim's calendar day, and the accepted claims that were
/// still within the freshness window when the last one was accepted.
#[derive(Clone, Debug, Default, PartialEq, Eq)]
pub struct RewardState {
    pub last_claim: i64,
    pub daily_claimed: u64,
    pub recent_claims: Vec<ClaimKey>,
}

/// The mathematical value of a `RewardState`.
pub struct RewardStateView {
    pub last_claim: i64,
    pub daily_claimed: u64,
    pub recent_claims: Seq<ClaimKey>,
}

impl View for RewardState {
    type V = RewardStateView;

    open spec fn view(&self) -> RewardStateView {
        RewardStateView {
            last_claim: self.last_claim,
            daily_claimed: self.daily_claimed,
            recent_claims: self.recent_claims@,
        }
    }
}

/// The record emitted when a claim has been fully issued.
#[derive(Clone, Copy, Debug, PartialEq, Eq)]
pub struct RewardClaimed {
    pub founder: Pubkey,
    pub amount: u64,
    pub kpi_type: u8,
    pub timestamp: i64,
}

/// The state that program setup fills in.
#[derive(Clone, Copy, Debug, PartialEq, Eq)]
pub struct InitializeProgram {
    pub program_state: ProgramState,
}

/// The state one claim reads and updates: the program record, the claiming
/// participant's record, and the participant's identity.
#[derive(Clone, Debug, PartialEq, Eq)]
pub struct ClaimReward {
    pub program_state: ProgramState,
    pub reward_state: RewardState,
    pub founder: Pubkey,
}

/// The mathematical value of a `ClaimReward`.
pub struct ClaimRewardView {
    pub program_state: ProgramState,
    pub reward_state: RewardStateView,
    pub founder: Pubkey,
}

impl View for ClaimReward {
    type V = ClaimRewardView;

    open spec fn view(&self) -> ClaimRewardView {
        ClaimRewardView {
            program_state: self.program_state,
            reward_state: self.reward_state@,
            founder: self.founder,
        }
    }
}

/// Every way a claim can fail.
///
/// `MintFailed` means nothing was issued and the claim may be retried;
/// `PartialIssuance` means tokens were minted but the burn or the ledger
/// record did not happen, so the claim must be reconciled rather than retried.
/// `ReplayedClaim` means this very claim (same amount, KPI code and signed
/// timestamp) was already accepted for the participant.
#[derive(Clone, Copy, Debug, PartialEq, Eq, Structural)]
pub enum ErrorCode {
    InvalidSignature,
    ExcessiveReward,
    DailyLimitExceeded,
    StaleData,
    InvalidMintAuthority,
    LedgerOverflow,
    MintFailed,
    PartialIssuance,
    ReplayedClaim,
}

} // verus!
