use vstd::prelude::*;

use crate::instructions::{
    claim_outcome, deposit_outcome, set_paused_outcome, withdraw_outcome,
};
use crate::pubkey::Pubkey;
use crate::state::{AmountClaimed, ErrorCode, RewardInfo, RewardPoolState};

verus! {

/// One operation applied to a campaign record, with the inputs it is called on.
pub enum CampaignStep {
    Deposit { pool: RewardPoolState, user: Pubkey, token_address: Pubkey, campaign_amount: u64 },
    Claim { pool: RewardPoolState, claimed: AmountClaimed, amount: u64 },
    Withdraw { pool: RewardPoolState, user: Pubkey, amount: u64 },
}

/// The campaign record after `step` succeeds, or `None` when it fails (or,
/// for a deposit, when the new balance would not fit in a `u64`).
pub open spec fn step_outcome(info: RewardInfo, step: CampaignStep) -> Option<RewardInfo> {
    match step {
        CampaignStep::Deposit { pool, user, token_address, campaign_amount } => {
            if !info.is_funded() && info.amount + campaign_amount > u64::MAX {
                None
            } else {
                match deposit_outcome(pool, info, user, token_address, campaign_amount) {
                    Ok(after) => Some(after),
                    Err(_) => None,
                }
            }
        },
        CampaignStep::Claim { pool, claimed, amount } => {
            match claim_outcome(pool, info, claimed, amount) {
                Ok((after, _)) => Some(after),
                Err(_) => None,
            }
        },
        CampaignStep::Withdraw { pool, user, amount } => {
            match withdraw_outcome(pool, info, user, amount) {
                Ok(after) => Some(after),
                Err(_) => None,
            }
        },
    }
}

/// The campaign record after every step of `steps` succeeds in turn, or `None`.
pub open spec fn run_steps(info: RewardInfo, steps: Seq<CampaignStep>) -> Option<RewardInfo>
    decreases steps.len(),
{
    if steps.len() == 0 {
        Some(info)
    } else {
        match step_outcome(info, steps[0]) {
            Some(after) => run_steps(after, steps.drop_first()),
            None => None,
        }
    }
}

/// The total that the deposits of `steps` bring in.
pub open spec fn deposited(steps: Seq<CampaignStep>) -> int
    decreases steps.len(),
{
    if steps.len() == 0 {
        0
    } else {
        let rest = deposited(steps.drop_first());
        match steps[0] {
            CampaignStep::Deposit { campaign_amount, .. } => campaign_amount + rest,
            _ => rest,
        }
    }
}

/// The total that the claims of `steps` pay out.
pub open spec fn claimed_total(steps: Seq<CampaignStep>) -> int
    decreases steps.len(),
{
    if steps.len() == 0 {
        0
    } else {
        let rest = claimed_total(steps.drop_first());
        match steps[0] {
            CampaignStep::Claim { amount, .. } => amount + rest,
            _ => rest,
        }
    }
}

/// The total that the withdrawals of `steps` take back.
pub open spec fn withdrawn(steps: Seq<CampaignStep>) -> int
    decreases steps.len(),
{
    if steps.len() == 0 {
        0
    } else {
        let rest = withdrawn(steps.drop_first());
        match steps[0] {
            CampaignStep::Withdraw { amount, .. } => amount + rest,
            _ => rest,
        }
    }
}

/// Conservation of a campaign's balance: after any sequence of successful
/// deposits, claims and withdrawals, the balance is the starting balance plus
/// what was deposited, minus what was claimed and withdrawn, and what was
/// paid out never exceeds what was there.
pub proof fn lemma_balance_conserved(info: RewardInfo, steps: Seq<CampaignStep>, last: RewardInfo)
    requires
        run_steps(info, steps) == Some(last),
    ensures
        last.amount == info.amount + deposited(steps) - claimed_total(steps) - withdrawn(steps),
        claimed_total(steps) + withdrawn(steps) <= info.amount + deposited(steps),
    decreases steps.len(),
{
    if steps.len() > 0 {
        let after = step_outcome(info, steps[0]).unwrap();
        lemma_balance_conserved(after, steps.drop_first(), last);
    }
}

/// A campaign is funded once: after a deposit of a non-null token succeeds,
/// any further deposit into the same record fails with `CampaignAlreadyExists`.
pub proof fn lemma_second_deposit_refused(
    pool: RewardPoolState,
    info: RewardInfo,
    after: RewardInfo,
    user: Pubkey,
    token_address: Pubkey,
    campaign_amount: u64,
    second_user: Pubkey,
    second_token: Pubkey,
    second_amount: u64,
)
    requires
        !token_address.spec_is_zero(),
        deposit_outcome(pool, info, user, token_address, campaign_amount) == Ok::<
            RewardInfo,
            ErrorCode,
        >(after),
    ensures
        deposit_outcome(pool, after, second_user, second_token, second_amount) == Err::<
            RewardInfo,
            ErrorCode,
        >(ErrorCode::CampaignAlreadyExists),
{
}

/// A claim that would take the caller's total past the campaign's balance is
/// refused with `ClaimAmountExceedsAllowedBalance`, once the pool is running and
/// the campaign holds at least the amount asked for.
pub proof fn lemma_over_claim_refused(
    pool: RewardPoolState,
    info: RewardInfo,
    claimed: AmountClaimed,
    amount: u64,
)
    requires
        !pool.paused,
        info.is_funded(),
        amount <= info.amount,
        claimed.amount_claimed + amount > info.amount,
    ensures
        claim_outcome(pool, info, claimed, amount) == Err::<(RewardInfo, AmountClaimed), ErrorCode>(
            ErrorCode::ClaimAmountExceedsAllowedBalance,
        ),
{
}

/// Only the depositor can withdraw: a withdrawal by anyone else never succeeds,
/// and fails with `OnlyCampaignCreatorAllowed` once the pool is running and the
/// campaign holds the amount asked for.
pub proof fn lemma_non_owner_withdraw_refused(
    pool: RewardPoolState,
    info: RewardInfo,
    user: Pubkey,
    amount: u64,
)
    requires
        user@ != info.owner_address@,
    ensures
        withdraw_outcome(pool, info, user, amount) is Err,
        !pool.paused && info.is_funded() && amount <= info.amount ==> withdraw_outcome(
            pool,
            info,
            user,
            amount,
        ) == Err::<RewardInfo, ErrorCode>(ErrorCode::OnlyCampaignCreatorAllowed),
{
}

/// While the pool is paused, deposits, claims and withdrawals fail with
/// `ProgramPaused`, and the owner can still unpause it.
pub proof fn lemma_paused_blocks_operations(
    pool: RewardPoolState,
    info: RewardInfo,
    claimed: AmountClaimed,
    user: Pubkey,
    token_address: Pubkey,
    amount: u64,
)
    requires
        pool.paused,
    ensures
        deposit_outcome(pool, info, user, token_address, amount) == Err::<RewardInfo, ErrorCode>(
            ErrorCode::ProgramPaused,
        ),
        claim_outcome(pool, info, claimed, amount) == Err::<(RewardInfo, AmountClaimed), ErrorCode>(
            ErrorCode::ProgramPaused,
        ),
        withdraw_outcome(pool, info, user, amount) == Err::<RewardInfo, ErrorCode>(
            ErrorCode::ProgramPaused,
        ),
        set_paused_outcome(pool, pool.owner, false) == Ok::<RewardPoolState, ErrorCode>(
            RewardPoolState {
                owner: pool.owner,
                tax_recipient: pool.tax_recipient,
                authorized_signer: pool.authorized_signer,
                paused: false,
            },
        ),
{
}

} // verus!
