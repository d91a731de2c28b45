use vstd::prelude::*;

use crate::pubkey::Pubkey;

verus! {

/// Every way an operation of the pool can fail.
#[derive(Clone, Copy, Debug, PartialEq, Eq, Structural)]
pub enum ErrorCode {
    /// A deposit into a campaign that is already funded.
    CampaignAlreadyExists,
    /// A claim or withdrawal from an unfunded campaign, or of more than it holds.
    NotEnoughReward,
    /// A claim that would take the caller's total past the campaign's balance.
    ClaimAmountExceedsAllowedBalance,
    /// Kept for callers that match on it; claims are bounded by the rule
    /// above instead, so no operation returns it.
    RewardAlreadyClaimed,
    /// A withdrawal by anyone but the campaign's depositor.
    OnlyCampaignCreatorAllowed,
    /// Kept for callers that match on it; no operation returns it.
    InvalidSignerAddress,
    /// A null identity given as creator, authorized signer or tax recipient.
    InvalidOwnerAddress,
    /// A deposit, claim or withdrawal while the pool is paused.
    ProgramPaused,
    /// An administrative change by an identity not allowed to make it.
    Unauthorized,
}

/// The pool-wide configuration record.
#[derive(Clone, Copy, Debug)]
pub struct RewardPoolState {
    pub owner: Pubkey,
    pub tax_recipient: Pubkey,
    pub authorized_signer: Pubkey,
    pub paused: bool,
}

impl RewardPoolState {
    /// The authorized signer and the tax recipient are never the null identity.
    pub open spec fn wf(&self) -> bool {
        &&& !self.authorized_signer.spec_is_zero()
        &&& !self.tax_recipient.spec_is_zero()
    }
}

/// The record of one campaign. A null `token_address` marks a campaign that
/// has not been funded yet.
#[derive(Clone, Copy, Debug)]
pub struct RewardInfo {
    pub amount: u64,
    pub token_address: Pubkey,
    pub owner_address: Pubkey,
}

impl RewardInfo {
    /// A fresh campaign record, as the host creates it before the first deposit.
    pub fn empty() -> (r: RewardInfo)
        ensures
            r.amount == 0,
            r.token_address.spec_is_zero(),
            r.owner_address.spec_is_zero(),
    {
        RewardInfo { amount: 0, token_address: Pubkey::zero(), owner_address: Pubkey::zero() }
    }

    /// Whether the campaign has been funded.
    pub open spec fn is_funded(&self) -> bool {
        !self.token_address.spec_is_zero()
    }
}

/// The cumulative amount one user has claimed from one campaign.
#[derive(Clone, Copy, Debug)]
pub struct AmountClaimed {
    pub amount_claimed: u64,
}

impl AmountClaimed {
    /// A fresh claim record, as the host creates it before the first claim.
    pub fn empty() -> (r: AmountClaimed)
        ensures
            r.amount_claimed == 0,
    {
        AmountClaimed { amount_claimed: 0 }
    }
}

/// The custody accounts that tokens move between.
#[derive(Clone, Copy, Debug, PartialEq, Eq, Structural)]
pub enum Custody {
    /// The token account of the identity that called the operation.
    User,
    /// The token account of the pool's tax recipient.
    TaxRecipient,
    /// The token account that escrows the campaign's funds.
    Campaign,
}

/// One movement of tokens that an operation asks the token ledger to make.
#[derive(Clone, Copy, Debug)]
pub struct TokenTransfer {
    pub from: Custody,
    pub to: Custody,
    pub authority: Pubkey,
    pub amount: u64,
}

} // verus!
