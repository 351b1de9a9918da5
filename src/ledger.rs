use vstd::prelude::*;

use crate::types::{ErrorCode, ProgramState};

verus! {

/// Both program totals can absorb `net_amount` issued and `burned` burned
/// without leaving the 64-bit range.
pub open spec fn ledger_fits(state: ProgramState, net_amount: u64, burned: u64) -> bool {
    state.total_rewards_distributed + net_amount <= u64::MAX && state.total_tokens_burned + burned
        <= u64::MAX
}

/// `state` with `net_amount` added to the issued total and `burned` to the
/// burned total.
pub open spec fn recorded(state: ProgramState, net_amount: u64, burned: u64) -> ProgramState {
    ProgramState {
        total_rewards_distributed: (state.total_rewards_distributed + net_amount) as u64,
        total_tokens_burned: (state.total_tokens_burned + burned) as u64,
        ..state
    }
}

impl ProgramState {
    /// Adds a completed issuance to the totals. When either total would
    /// overflow nothing changes and `LedgerOverflow` is returned.
    pub fn record(&mut self, net_amount: u64, burned: u64) -> (r: Result<(), ErrorCode>)
        ensures
            ledger_fits(*old(self), net_amount, burned) ==> r == Ok::<(), ErrorCode>(())
                && *final(self) == recorded(*old(self), net_amount, burned),
            !ledger_fits(*old(self), net_amount, burned) ==> r == Err::<(), ErrorCode>(
                ErrorCode::LedgerOverflow,
            ) && *final(self) == *old(self),
    {
        match (
            self.total_rewards_distributed.checked_add(net_amount),
            self.total_tokens_burned.checked_add(burned),
        ) {
            (Some(distributed), Some(total_burned)) => {
                self.total_rewards_distributed = distributed;
                self.total_tokens_burned = total_burned;
                Ok(())
            },
            _ => Err(ErrorCode::LedgerOverflow),
        }
    }
}

} // verus!
