use reward_pool_main::instructions::{
    claim_reward, deposit_reward, get_claimed_amount, initialize, pause, set_authorized_signer,
    set_tax_recipient, unpause, withdraw_reward, ClaimReward, DepositReward, GetClaimedAmount,
    Initialize, Pause, SetAuthorizedSigner, SetTaxRecipient, Unpause, WithdrawReward,
};
use reward_pool_main::pubkey::Pubkey;
use reward_pool_main::state::{AmountClaimed, Custody, ErrorCode, RewardInfo, RewardPoolState};

fn key(b: u8) -> Pubkey {
    Pubkey::new([b; 32])
}

fn running_pool(owner: Pubkey) -> RewardPoolState {
    initialize(&Initialize { user: owner }).unwrap()
}

fn funded(pool: RewardPoolState, depositor: Pubkey, amount: u64) -> RewardInfo {
    let mut ctx = DepositReward { reward_pool: pool, user: depositor, reward_info: RewardInfo::empty() };
    deposit_reward(&mut ctx, key(9), amount, 5, 1).unwrap();
    ctx.reward_info
}

#[test]
fn pubkey_zero_and_equality() {
    assert!(Pubkey::zero().is_zero());
    assert!(!key(1).is_zero());
    let mut bytes = [0u8; 32];
    bytes[31] = 1;
    assert!(!Pubkey::new(bytes).is_zero());
    assert!(key(1) == key(1));
    assert!(key(1) != key(2));
    let mut other = [1u8; 32];
    other[17] = 0;
    assert!(key(1) != Pubkey::new(other));
}

#[test]
fn initialize_sets_creator_everywhere() {
    let pool = running_pool(key(1));
    assert!(pool.owner == key(1));
    assert!(pool.authorized_signer == key(1));
    assert!(pool.tax_recipient == key(1));
    assert!(!pool.paused);
}

#[test]
fn initialize_refuses_null_creator() {
    let r = initialize(&Initialize { user: Pubkey::zero() });
    assert_eq!(r.unwrap_err(), ErrorCode::InvalidOwnerAddress);
}

#[test]
fn deposit_claim_withdraw_scenario() {
    let a = key(1);
    let b = key(2);
    let c = key(3);
    let token_x = key(7);
    let pool = running_pool(a);

    let mut dep = DepositReward { reward_pool: pool, user: b, reward_info: RewardInfo::empty() };
    let transfers = deposit_reward(&mut dep, token_x, 1000, 50, 1).unwrap();
    assert_eq!(transfers.len(), 2);
    assert_eq!(transfers[0].from, Custody::User);
    assert_eq!(transfers[0].to, Custody::TaxRecipient);
    assert_eq!(transfers[0].amount, 50);
    assert!(transfers[0].authority == b);
    assert_eq!(transfers[1].from, Custody::User);
    assert_eq!(transfers[1].to, Custody::Campaign);
    assert_eq!(transfers[1].amount, 1000);
    assert_eq!(dep.reward_info.amount, 1000);
    assert!(dep.reward_info.owner_address == b);
    assert!(dep.reward_info.token_address == token_x);

    let mut cl = ClaimReward {
        reward_pool: pool,
        amount_claimed: AmountClaimed::empty(),
        reward_info: dep.reward_info,
        user: c,
    };
    let transfers = claim_reward(&mut cl, 1, 400).unwrap();
    assert_eq!(transfers.len(), 1);
    assert_eq!(transfers[0].from, Custody::Campaign);
    assert_eq!(transfers[0].to, Custody::User);
    assert_eq!(transfers[0].amount, 400);
    assert!(transfers[0].authority == c);
    assert_eq!(cl.reward_info.amount, 600);
    assert_eq!(cl.amount_claimed.amount_claimed, 400);
    let q = GetClaimedAmount { amount_claimed: cl.amount_claimed, user: c };
    assert_eq!(get_claimed_amount(&q, 1), Ok(400));

    let mut wd = WithdrawReward { reward_pool: pool, user: b, reward_info: cl.reward_info };
    let transfers = withdraw_reward(&mut wd, 1, 600).unwrap();
    assert_eq!(transfers.len(), 1);
    assert_eq!(transfers[0].from, Custody::Campaign);
    assert_eq!(transfers[0].to, Custody::User);
    assert_eq!(transfers[0].amount, 600);
    assert!(transfers[0].authority == b);
    assert_eq!(wd.reward_info.amount, 0);

    let r = withdraw_reward(&mut wd, 1, 1);
    assert_eq!(r.unwrap_err(), ErrorCode::NotEnoughReward);
    assert_eq!(wd.reward_info.amount, 0);
}

#[test]
fn second_deposit_is_refused() {
    let pool = running_pool(key(1));
    let mut dep = DepositReward { reward_pool: pool, user: key(2), reward_info: RewardInfo::empty() };
    deposit_reward(&mut dep, key(7), 1000, 50, 1).unwrap();
    let r = deposit_reward(&mut dep, key(7), 500, 10, 1);
    assert_eq!(r.unwrap_err(), ErrorCode::CampaignAlreadyExists);
    assert_eq!(dep.reward_info.amount, 1000);
    assert!(dep.reward_info.owner_address == key(2));
}

#[test]
fn over_claim_is_refused() {
    let pool = running_pool(key(1));
    let info = funded(pool, key(2), 1000);
    let mut cl = ClaimReward {
        reward_pool: pool,
        amount_claimed: AmountClaimed { amount_claimed: 700 },
        reward_info: info,
        user: key(3),
    };
    let r = claim_reward(&mut cl, 1, 400);
    assert_eq!(r.unwrap_err(), ErrorCode::ClaimAmountExceedsAllowedBalance);
    assert_eq!(cl.amount_claimed.amount_claimed, 700);
    assert_eq!(cl.reward_info.amount, 1000);
}

#[test]
fn claim_beyond_balance_is_refused() {
    let pool = running_pool(key(1));
    let info = funded(pool, key(2), 100);
    let mut cl = ClaimReward {
        reward_pool: pool,
        amount_claimed: AmountClaimed::empty(),
        reward_info: info,
        user: key(3),
    };
    assert_eq!(claim_reward(&mut cl, 1, 101).unwrap_err(), ErrorCode::NotEnoughReward);
    assert_eq!(cl.reward_info.amount, 100);
    assert_eq!(cl.amount_claimed.amount_claimed, 0);
}

#[test]
fn claim_from_unfunded_campaign_is_refused() {
    let pool = running_pool(key(1));
    let mut cl = ClaimReward {
        reward_pool: pool,
        amount_claimed: AmountClaimed::empty(),
        reward_info: RewardInfo::empty(),
        user: key(3),
    };
    assert_eq!(claim_reward(&mut cl, 1, 0).unwrap_err(), ErrorCode::NotEnoughReward);
}

#[test]
fn repeated_claims_add_up() {
    let pool = running_pool(key(1));
    let info = funded(pool, key(2), 1000);
    let mut cl = ClaimReward {
        reward_pool: pool,
        amount_claimed: AmountClaimed::empty(),
        reward_info: info,
        user: key(3),
    };
    claim_reward(&mut cl, 1, 300).unwrap();
    claim_reward(&mut cl, 1, 200).unwrap();
    assert_eq!(cl.amount_claimed.amount_claimed, 500);
    assert_eq!(cl.reward_info.amount, 500);
    // 500 claimed + 1 more would exceed the 500 left.
    assert_eq!(claim_reward(&mut cl, 1, 1).unwrap_err(), ErrorCode::ClaimAmountExceedsAllowedBalance);
}

#[test]
fn non_owner_withdraw_is_refused() {
    let pool = running_pool(key(1));
    let info = funded(pool, key(2), 1000);
    let mut wd = WithdrawReward { reward_pool: pool, user: key(3), reward_info: info };
    let r = withdraw_reward(&mut wd, 1, 10);
    assert_eq!(r.unwrap_err(), ErrorCode::OnlyCampaignCreatorAllowed);
    assert_eq!(wd.reward_info.amount, 1000);
}

#[test]
fn paused_pool_blocks_operations() {
    let owner = key(1);
    let pool = running_pool(owner);
    let info = funded(pool, key(2), 1000);
    let mut p = Pause { reward_pool: pool, owner };
    pause(&mut p).unwrap();
    let paused = p.reward_pool;
    assert!(paused.paused);

    let mut dep = DepositReward { reward_pool: paused, user: key(2), reward_info: RewardInfo::empty() };
    assert_eq!(deposit_reward(&mut dep, key(7), 10, 1, 2).unwrap_err(), ErrorCode::ProgramPaused);
    assert_eq!(dep.reward_info.amount, 0);

    let mut cl = ClaimReward {
        reward_pool: paused,
        amount_claimed: AmountClaimed { amount_claimed: 5 },
        reward_info: info,
        user: key(3),
    };
    assert_eq!(claim_reward(&mut cl, 1, 10).unwrap_err(), ErrorCode::ProgramPaused);

    let mut wd = WithdrawReward { reward_pool: paused, user: key(2), reward_info: info };
    assert_eq!(withdraw_reward(&mut wd, 1, 10).unwrap_err(), ErrorCode::ProgramPaused);
    assert_eq!(wd.reward_info.amount, 1000);

    let q = GetClaimedAmount { amount_claimed: AmountClaimed { amount_claimed: 5 }, user: key(3) };
    assert_eq!(get_claimed_amount(&q, 1), Ok(5));

    let mut up = Unpause { reward_pool: paused, owner };
    unpause(&mut up).unwrap();
    assert!(!up.reward_pool.paused);
}

#[test]
fn pause_and_unpause_need_the_owner() {
    let pool = running_pool(key(1));
    let mut p = Pause { reward_pool: pool, owner: key(2) };
    assert_eq!(pause(&mut p).unwrap_err(), ErrorCode::Unauthorized);
    assert!(!p.reward_pool.paused);
    let mut paused = pool;
    paused.paused = true;
    let mut up = Unpause { reward_pool: paused, owner: key(2) };
    assert_eq!(unpause(&mut up).unwrap_err(), ErrorCode::Unauthorized);
    assert!(up.reward_pool.paused);
}

#[test]
fn balance_is_deposits_minus_payouts() {
    let pool = running_pool(key(1));
    let info = funded(pool, key(2), 900);
    let mut cl = ClaimReward {
        reward_pool: pool,
        amount_claimed: AmountClaimed::empty(),
        reward_info: info,
        user: key(3),
    };
    claim_reward(&mut cl, 1, 250).unwrap();
    let mut wd = WithdrawReward { reward_pool: pool, user: key(2), reward_info: cl.reward_info };
    withdraw_reward(&mut wd, 1, 150).unwrap();
    assert_eq!(wd.reward_info.amount, 900 - 250 - 150);
}

#[test]
fn authorized_signer_rotation() {
    let pool = running_pool(key(1));
    let mut ctx = SetAuthorizedSigner { reward_pool: pool, owner: key(1) };
    set_authorized_signer(&mut ctx, key(4)).unwrap();
    assert!(ctx.reward_pool.authorized_signer == key(4));
    assert!(ctx.reward_pool.owner == key(1));

    // The owner is no longer the authorized signer.
    let mut again = SetAuthorizedSigner { reward_pool: ctx.reward_pool, owner: key(1) };
    assert_eq!(set_authorized_signer(&mut again, key(5)).unwrap_err(), ErrorCode::Unauthorized);
    assert!(again.reward_pool.authorized_signer == key(4));

    let mut by_signer = SetAuthorizedSigner { reward_pool: ctx.reward_pool, owner: key(4) };
    assert_eq!(
        set_authorized_signer(&mut by_signer, Pubkey::zero()).unwrap_err(),
        ErrorCode::InvalidOwnerAddress
    );
    set_authorized_signer(&mut by_signer, key(5)).unwrap();
    assert!(by_signer.reward_pool.authorized_signer == key(5));
}

#[test]
fn tax_recipient_rotation() {
    let pool = running_pool(key(1));
    let mut stranger = SetTaxRecipient { reward_pool: pool, owner: key(2) };
    assert_eq!(set_tax_recipient(&mut stranger, key(6)).unwrap_err(), ErrorCode::Unauthorized);
    assert!(stranger.reward_pool.tax_recipient == key(1));

    let mut ctx = SetTaxRecipient { reward_pool: pool, owner: key(1) };
    assert_eq!(
        set_tax_recipient(&mut ctx, Pubkey::zero()).unwrap_err(),
        ErrorCode::InvalidOwnerAddress
    );
    set_tax_recipient(&mut ctx, key(6)).unwrap();
    assert!(ctx.reward_pool.tax_recipient == key(6));
}
