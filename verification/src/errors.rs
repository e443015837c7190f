//! Error taxonomy of the funding ledger.

use vstd::prelude::*;

verus! {

/// Every recoverable failure the ledger can report.  All of these are returned
/// to the caller as typed results; none aborts the process.
#[derive(Clone, Copy, PartialEq, Eq, Structural, Debug)]
pub enum FundError {
    /// A zero amount or an empty identity field.
    InvalidInput,
    /// The caller failed the registration / operator-policy check.
    Unauthorized,
    /// Unknown contribution, transfer, or campaign.
    NotFound,
    /// A transition was attempted from a state that forbids it.
    InvalidState,
    /// Settlement was attempted before the campaign's end date.
    CampaignNotEnded,
    /// A contribution was attempted after the campaign's end date.
    CampaignEnded,
    /// Release was attempted without a sufficient held total.
    GoalNotReached,
    /// The external metadata or payout call failed.
    UpstreamUnavailable,
}

impl FundError {
    /// A short description, for callers that log or display errors.
    pub fn describe(&self) -> (r: &'static str)
        ensures
            r@.len() > 0,
    {
        proof {
            reveal_strlit("invalid input");
            reveal_strlit("not authorized");
            reveal_strlit("not found");
            reveal_strlit("invalid state for this transition");
            reveal_strlit("campaign not ended yet");
            reveal_strlit("campaign already ended");
            reveal_strlit("campaign did not reach goal");
            reveal_strlit("upstream call failed");
        }
        match self {
            FundError::InvalidInput => "invalid input",
            FundError::Unauthorized => "not authorized",
            FundError::NotFound => "not found",
            FundError::InvalidState => "invalid state for this transition",
            FundError::CampaignNotEnded => "campaign not ended yet",
            FundError::CampaignEnded => "campaign already ended",
            FundError::GoalNotReached => "campaign did not reach goal",
            FundError::UpstreamUnavailable => "upstream call failed",
        }
    }
}

} // verus!
