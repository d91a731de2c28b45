use vstd::prelude::*;

use crate::pubkey::Pubkey;
use crate::state::{AmountClaimed, Custody, ErrorCode, RewardInfo, RewardPoolState, TokenTransfer};

verus! {

/// A transfer of `amount` from `from` to `to`, authorized by `authority`.
pub open spec fn transfer_of(from: Custody, to: Custody, authority: Pubkey, amount: u64) -> TokenTransfer {
    TokenTransfer { from, to, authority, amount }
}

/// The records a deposit works on, as the host located them.
#[derive(Clone, Copy, Debug)]
pub struct DepositReward {
    pub reward_pool: RewardPoolState,
    pub user: Pubkey,
    pub reward_info: RewardInfo,
}

/// What a deposit into `info` leaves in the campaign record, or why it fails.
pub open spec fn deposit_outcome(
    pool: RewardPoolState,
    info: RewardInfo,
    user: Pubkey,
    token_address: Pubkey,
    campaign_amount: u64,
) -> Result<RewardInfo, ErrorCode> {
    if pool.paused {
        Err(ErrorCode::ProgramPaused)
    } else if info.is_funded() {
        Err(ErrorCode::CampaignAlreadyExists)
    } else {
        Ok(
            RewardInfo {
                amount: (info.amount + campaign_amount) as u64,
                token_address,
                owner_address: user,
            },
        )
    }
}

/// The fee goes to the tax recipient first, then the campaign amount to the campaign.
pub open spec fn deposit_transfers(user: Pubkey, campaign_amount: u64, fee_amount: u64) -> Seq<
    TokenTransfer,
> {
    seq![
        transfer_of(Custody::User, Custody::TaxRecipient, user, fee_amount),
        transfer_of(Custody::User, Custody::Campaign, user, campaign_amount),
    ]
}

/// Funds a new campaign: records the token, the amount and the depositor, and
/// returns the two transfers that move the fee and the campaign amount.
/// On failure nothing changes and no transfer is asked for.
pub fn deposit_reward(
    ctx: &mut DepositReward,
    token_address: Pubkey,
    campaign_amount: u64,
    fee_amount: u64,
    campaign_id: u64,
) -> (r: Result<Vec<TokenTransfer>, ErrorCode>)
    requires
        !old(ctx).reward_info.is_funded() ==> old(ctx).reward_info.amount + campaign_amount
            <= u64::MAX,
    ensures
        final(ctx).reward_pool == old(ctx).reward_pool,
        final(ctx).user == old(ctx).user,
        match r {
            Ok(t) => {
                &&& deposit_outcome(
                    old(ctx).reward_pool,
                    old(ctx).reward_info,
                    old(ctx).user,
                    token_address,
                    campaign_amount,
                ) == Ok::<RewardInfo, ErrorCode>(final(ctx).reward_info)
                &&& t@ == deposit_transfers(old(ctx).user, campaign_amount, fee_amount)
            },
            Err(e) => {
                &&& deposit_outcome(
                    old(ctx).reward_pool,
                    old(ctx).reward_info,
                    old(ctx).user,
                    token_address,
                    campaign_amount,
                ) == Err::<RewardInfo, ErrorCode>(e)
                &&& *final(ctx) == *old(ctx)
            },
        },
{
    if ctx.reward_pool.paused {
        return Err(ErrorCode::ProgramPaused);
    }
    if !ctx.reward_info.token_address.is_zero() {
        return Err(ErrorCode::CampaignAlreadyExists);
    }
    let user = ctx.user;
    let mut transfers: Vec<TokenTransfer> = Vec::new();
    transfers.push(
        TokenTransfer {
            from: Custody::User,
            to: Custody::TaxRecipient,
            authority: user,
            amount: fee_amount,
        },
    );
    transfers.push(
        TokenTransfer {
            from: Custody::User,
            to: Custody::Campaign,
            authority: user,
            amount: campaign_amount,
        },
    );
    ctx.reward_info.token_address = token_address;
    ctx.reward_info.amount = ctx.reward_info.amount + campaign_amount;
    ctx.reward_info.owner_address = user;
    assert(transfers@ =~= deposit_transfers(user, campaign_amount, fee_amount));
    Ok(transfers)
}

/// The records a claim works on, as the host located them.
#[derive(Clone, Copy, Debug)]
pub struct ClaimReward {
    pub reward_pool: RewardPoolState,
    pub amount_claimed: AmountClaimed,
    pub reward_info: RewardInfo,
    pub user: Pubkey,
}

/// What a claim of `amount` leaves in the campaign and claim records, or why it fails.
/// The first claim of a user is allowed like any other; every claim is bounded
/// by the caller's total against the campaign's current balance.
pub open spec fn claim_outcome(
    pool: RewardPoolState,
    info: RewardInfo,
    claimed: AmountClaimed,
    amount: u64,
) -> Result<(RewardInfo, AmountClaimed), ErrorCode> {
    if pool.paused {
        Err(ErrorCode::ProgramPaused)
    } else if !info.is_funded() || info.amount < amount {
        Err(ErrorCode::NotEnoughReward)
    } else if claimed.amount_claimed + amount > info.amount {
        Err(ErrorCode::ClaimAmountExceedsAllowedBalance)
    } else {
        Ok(
            (
                RewardInfo {
                    amount: (info.amount - amount) as u64,
                    token_address: info.token_address,
                    owner_address: info.owner_address,
                },
                AmountClaimed { amount_claimed: (claimed.amount_claimed + amount) as u64 },
            ),
        )
    }
}

/// Pays `amount` out of a campaign to the caller and adds it to the caller's
/// claimed total. A claim is refused when the caller's total after it would
/// exceed what the campaign holds. On failure nothing changes and no transfer
/// is asked for.
pub fn claim_reward(ctx: &mut ClaimReward, campaign_id: u64, amount: u64) -> (r: Result<
    Vec<TokenTransfer>,
    ErrorCode,
>)
    ensures
        final(ctx).reward_pool == old(ctx).reward_pool,
        final(ctx).user == old(ctx).user,
        match r {
            Ok(t) => {
                &&& claim_outcome(
                    old(ctx).reward_pool,
                    old(ctx).reward_info,
                    old(ctx).amount_claimed,
                    amount,
                ) == Ok::<(RewardInfo, AmountClaimed), ErrorCode>(
                    (final(ctx).reward_info, final(ctx).amount_claimed),
                )
                &&& t@ == seq![transfer_of(Custody::Campaign, Custody::User, old(ctx).user, amount)]
            },
            Err(e) => {
                &&& claim_outcome(
                    old(ctx).reward_pool,
                    old(ctx).reward_info,
                    old(ctx).amount_claimed,
                    amount,
                ) == Err::<(RewardInfo, AmountClaimed), ErrorCode>(e)
                &&& *final(ctx) == *old(ctx)
            },
        },
{
    if ctx.reward_pool.paused {
        return Err(ErrorCode::ProgramPaused);
    }
    if ctx.reward_info.token_address.is_zero() || ctx.reward_info.amount < amount {
        return Err(ErrorCode::NotEnoughReward);
    }
    let claimed = ctx.amount_claimed.amount_claimed;
    if claimed > ctx.reward_info.amount || amount > ctx.reward_info.amount - claimed {
        return Err(ErrorCode::ClaimAmountExceedsAllowedBalance);
    }
    ctx.amount_claimed.amount_claimed = claimed + amount;
    ctx.reward_info.amount = ctx.reward_info.amount - amount;
    let mut transfers: Vec<TokenTransfer> = Vec::new();
    transfers.push(
        TokenTransfer { from: Custody::Campaign, to: Custody::User, authority: ctx.user, amount },
    );
    assert(transfers@ =~= seq![transfer_of(Custody::Campaign, Custody::User, ctx.user, amount)]);
    Ok(transfers)
}

/// The records a withdrawal works on, as the host located them.
#[derive(Clone, Copy, Debug)]
pub struct WithdrawReward {
    pub reward_pool: RewardPoolState,
    pub user: Pubkey,
    pub reward_info: RewardInfo,
}

/// What a withdrawal of `amount` by `user` leaves in the campaign record, or why it fails.
pub open spec fn withdraw_outcome(
    pool: RewardPoolState,
    info: RewardInfo,
    user: Pubkey,
    amount: u64,
) -> Result<RewardInfo, ErrorCode> {
    if pool.paused {
        Err(ErrorCode::ProgramPaused)
    } else if !info.is_funded() || info.amount < amount {
        Err(ErrorCode::NotEnoughReward)
    } else if user@ != info.owner_address@ {
        Err(ErrorCode::OnlyCampaignCreatorAllowed)
    } else {
        Ok(
            RewardInfo {
                amount: (info.amount - amount) as u64,
                token_address: info.token_address,
                owner_address: info.owner_address,
            },
        )
    }
}

/// Lets the campaign's depositor take back `amount` of what is left in it.
/// On failure nothing changes and no transfer is asked for.
pub fn withdraw_reward(ctx: &mut WithdrawReward, campaign_id: u64, amount: u64) -> (r: Result<
    Vec<TokenTransfer>,
    ErrorCode,
>)
    ensures
        final(ctx).reward_pool == old(ctx).reward_pool,
        final(ctx).user == old(ctx).user,
        match r {
            Ok(t) => {
                &&& withdraw_outcome(
                    old(ctx).reward_pool,
                    old(ctx).reward_info,
                    old(ctx).user,
                    amount,
                ) == Ok::<RewardInfo, ErrorCode>(final(ctx).reward_info)
                &&& t@ == seq![transfer_of(Custody::Campaign, Custody::User, old(ctx).user, amount)]
            },
            Err(e) => {
                &&& withdraw_outcome(
                    old(ctx).reward_pool,
                    old(ctx).reward_info,
                    old(ctx).user,
                    amount,
                ) == Err::<RewardInfo, ErrorCode>(e)
                &&& *final(ctx) == *old(ctx)
            },
        },
{
    if ctx.reward_pool.paused {
        return Err(ErrorCode::ProgramPaused);
    }
    if ctx.reward_info.token_address.is_zero() || ctx.reward_info.amount < amount {
        return Err(ErrorCode::NotEnoughReward);
    }
    if !(ctx.user == ctx.reward_info.owner_address) {
        return Err(ErrorCode::OnlyCampaignCreatorAllowed);
    }
    ctx.reward_info.amount = ctx.reward_info.amount - amount;
    let mut transfers: Vec<TokenTransfer> = Vec::new();
    transfers.push(
        TokenTransfer { from: Custody::Campaign, to: Custody::User, authority: ctx.user, amount },
    );
    assert(transfers@ =~= seq![transfer_of(Custody::Campaign, Custody::User, ctx.user, amount)]);
    Ok(transfers)
}

/// The identity that creates the pool.
#[derive(Clone, Copy, Debug)]
pub struct Initialize {
    pub user: Pubkey,
}

/// Creates the pool record: the creator becomes owner, authorized signer and
/// tax recipient, and the pool starts unpaused. A null creator is refused,
/// since the signer and the recipient may never be null.
pub fn initialize(ctx: &Initialize) -> (r: Result<RewardPoolState, ErrorCode>)
    ensures
        match r {
            Ok(pool) => {
                &&& !ctx.user.spec_is_zero()
                &&& pool.owner == ctx.user
                &&& pool.authorized_signer == ctx.user
                &&& pool.tax_recipient == ctx.user
                &&& !pool.paused
                &&& pool.wf()
            },
            Err(e) => ctx.user.spec_is_zero() && e == ErrorCode::InvalidOwnerAddress,
        },
{
    if ctx.user.is_zero() {
        return Err(ErrorCode::InvalidOwnerAddress);
    }
    Ok(
        RewardPoolState {
            owner: ctx.user,
            tax_recipient: ctx.user,
            authorized_signer: ctx.user,
            paused: false,
        },
    )
}

/// The claim record a query reads, and the identity asking.
#[derive(Clone, Copy, Debug)]
pub struct GetClaimedAmount {
    pub amount_claimed: AmountClaimed,
    pub user: Pubkey,
}

/// The caller's cumulative claimed amount for the campaign. It reads only,
/// and succeeds whether or not the pool is paused.
pub fn get_claimed_amount(ctx: &GetClaimedAmount, campaign_id: u64) -> (r: Result<u64, ErrorCode>)
    ensures
        r == Ok::<u64, ErrorCode>(ctx.amount_claimed.amount_claimed),
{
    Ok(ctx.amount_claimed.amount_claimed)
}

/// The pool record and the identity that signs an administrative change.
#[derive(Clone, Copy, Debug)]
pub struct SetAuthorizedSigner {
    pub reward_pool: RewardPoolState,
    pub owner: Pubkey,
}

/// The pool record after the authorized signer is replaced by `new_signer`, or why not.
pub open spec fn set_signer_outcome(pool: RewardPoolState, caller: Pubkey, new_signer: Pubkey) -> Result<
    RewardPoolState,
    ErrorCode,
> {
    if caller@ != pool.authorized_signer@ {
        Err(ErrorCode::Unauthorized)
    } else if new_signer.spec_is_zero() {
        Err(ErrorCode::InvalidOwnerAddress)
    } else {
        Ok(
            RewardPoolState {
                owner: pool.owner,
                tax_recipient: pool.tax_recipient,
                authorized_signer: new_signer,
                paused: pool.paused,
            },
        )
    }
}

/// Rotates the authorized signer. Only the current authorized signer may do
/// so, and the null identity is refused. On failure nothing changes.
pub fn set_authorized_signer(ctx: &mut SetAuthorizedSigner, new_signer: Pubkey) -> (r: Result<
    (),
    ErrorCode,
>)
    requires
        old(ctx).reward_pool.wf(),
    ensures
        final(ctx).owner == old(ctx).owner,
        final(ctx).reward_pool.wf(),
        match r {
            Ok(_) => set_signer_outcome(old(ctx).reward_pool, old(ctx).owner, new_signer) == Ok::<
                RewardPoolState,
                ErrorCode,
            >(final(ctx).reward_pool),
            Err(e) => {
                &&& set_signer_outcome(old(ctx).reward_pool, old(ctx).owner, new_signer) == Err::<
                    RewardPoolState,
                    ErrorCode,
                >(e)
                &&& *final(ctx) == *old(ctx)
            },
        },
{
    if !(ctx.owner == ctx.reward_pool.authorized_signer) {
        return Err(ErrorCode::Unauthorized);
    }
    if new_signer.is_zero() {
        return Err(ErrorCode::InvalidOwnerAddress);
    }
    ctx.reward_pool.authorized_signer = new_signer;
    Ok(())
}

/// The pool record and the identity that signs an administrative change.
#[derive(Clone, Copy, Debug)]
pub struct SetTaxRecipient {
    pub reward_pool: RewardPoolState,
    pub owner: Pubkey,
}

/// The pool record after the tax recipient is replaced by `new_tax_recipient`, or why not.
pub open spec fn set_recipient_outcome(
    pool: RewardPoolState,
    caller: Pubkey,
    new_tax_recipient: Pubkey,
) -> Result<RewardPoolState, ErrorCode> {
    if caller@ != pool.owner@ {
        Err(ErrorCode::Unauthorized)
    } else if new_tax_recipient.spec_is_zero() {
        Err(ErrorCode::InvalidOwnerAddress)
    } else {
        Ok(
            RewardPoolState {
                owner: pool.owner,
                tax_recipient: new_tax_recipient,
                authorized_signer: pool.authorized_signer,
                paused: pool.paused,
            },
        )
    }
}

/// Replaces the identity that receives deposit fees. Only the pool owner may
/// do so, and the null identity is refused. On failure nothing changes.
pub fn set_tax_recipient(ctx: &mut SetTaxRecipient, new_tax_recipient: Pubkey) -> (r: Result<
    (),
    ErrorCode,
>)
    requires
        old(ctx).reward_pool.wf(),
    ensures
        final(ctx).owner == old(ctx).owner,
        final(ctx).reward_pool.wf(),
        match r {
            Ok(_) => set_recipient_outcome(old(ctx).reward_pool, old(ctx).owner, new_tax_recipient)
                == Ok::<RewardPoolState, ErrorCode>(final(ctx).reward_pool),
            Err(e) => {
                &&& set_recipient_outcome(old(ctx).reward_pool, old(ctx).owner, new_tax_recipient)
                    == Err::<RewardPoolState, ErrorCode>(e)
                &&& *final(ctx) == *old(ctx)
            },
        },
{
    if !(ctx.owner == ctx.reward_pool.owner) {
        return Err(ErrorCode::Unauthorized);
    }
    if new_tax_recipient.is_zero() {
        return Err(ErrorCode::InvalidOwnerAddress);
    }
    ctx.reward_pool.tax_recipient = new_tax_recipient;
    Ok(())
}

/// The pool record and the identity that signs an administrative change.
#[derive(Clone, Copy, Debug)]
pub struct Pause {
    pub reward_pool: RewardPoolState,
    pub owner: Pubkey,
}

/// The pool record after its paused flag is set to `paused` by `caller`, or why not.
pub open spec fn set_paused_outcome(pool: RewardPoolState, caller: Pubkey, paused: bool) -> Result<
    RewardPoolState,
    ErrorCode,
> {
    if caller@ != pool.owner@ {
        Err(ErrorCode::Unauthorized)
    } else {
        Ok(
            RewardPoolState {
                owner: pool.owner,
                tax_recipient: pool.tax_recipient,
                authorized_signer: pool.authorized_signer,
                paused,
            },
        )
    }
}

/// Stops deposits, claims and withdrawals. Only the pool owner may do so.
pub fn pause(ctx: &mut Pause) -> (r: Result<(), ErrorCode>)
    ensures
        final(ctx).owner == old(ctx).owner,
        old(ctx).reward_pool.wf() ==> final(ctx).reward_pool.wf(),
        match r {
            Ok(_) => set_paused_outcome(old(ctx).reward_pool, old(ctx).owner, true) == Ok::<
                RewardPoolState,
                ErrorCode,
            >(final(ctx).reward_pool),
            Err(e) => {
                &&& set_paused_outcome(old(ctx).reward_pool, old(ctx).owner, true) == Err::<
                    RewardPoolState,
                    ErrorCode,
                >(e)
                &&& *final(ctx) == *old(ctx)
            },
        },
{
    if !(ctx.owner == ctx.reward_pool.owner) {
        return Err(ErrorCode::Unauthorized);
    }
    ctx.reward_pool.paused = true;
    Ok(())
}

/// The pool record and the identity that signs an administrative change.
#[derive(Clone, Copy, Debug)]
pub struct Unpause {
    pub reward_pool: RewardPoolState,
    pub owner: Pubkey,
}

/// Lets deposits, claims and withdrawals resume. Only the pool owner may do so.
pub fn unpause(ctx: &mut Unpause) -> (r: Result<(), ErrorCode>)
    ensures
        final(ctx).owner == old(ctx).owner,
        old(ctx).reward_pool.wf() ==> final(ctx).reward_pool.wf(),
        match r {
            Ok(_) => set_paused_outcome(old(ctx).reward_pool, old(ctx).owner, false) == Ok::<
                RewardPoolState,
                ErrorCode,
            >(final(ctx).reward_pool),
            Err(e) => {
                &&& set_paused_outcome(old(ctx).reward_pool, old(ctx).owner, false) == Err::<
                    RewardPoolState,
                    ErrorCode,
                >(e)
                &&& *final(ctx) == *old(ctx)
            },
        },
{
    if !(ctx.owner == ctx.reward_pool.owner) {
        return Err(ErrorCode::Unauthorized);
    }
    ctx.reward_pool.paused = false;
    Ok(())
}

} // verus!
