//! The periodic reward of a keyword.
//!
//! Once in every reward interval one staker of a vault can be paid. The
//! reward comes from a pool of a tenth of the collected funds, weighted by
//! how rare the keyword is among stakers, and is divided by their number.
//! A distribution pays one staker; the interval then starts anew for the
//! whole token.

use vstd::prelude::*;
use anchor_lang::error::Error;
use solana_program::account_info::AccountInfo;
use crate::error::{EngineError, ErrorCode};
use crate::launch::UtilityToken;
use crate::ledger::{transfer, Signer};
use crate::vault::KeywordVault;

verus! {

/// The least time between two distributions of a token, in seconds.
pub const REWARD_INTERVAL: i64 = 86_400;

/// The part of the collected funds that forms the reward pool: one in
/// this many.
pub const POOL_DIVISOR: u64 = 10;

/// The rarity bonus of a keyword with a single staker. The bonus is a
/// fraction of one, counted in units of one in this many.
pub const RARITY_SCALE: u64 = 1_000_000;

/// The number by which rewards are divided: the number of stakers, or one
/// if there is none.
pub open spec fn reward_shares(staker_count: u64) -> int {
    vstd::math::max(staker_count as int, 1)
}

/// The pool from which rewards are paid: a tenth of the collected funds,
/// rounded down.
pub open spec fn reward_pool(funds_collected: u64) -> int {
    funds_collected as int / POOL_DIVISOR as int
}

/// The weight of a keyword that `staker_count` stakers share: the scale
/// divided by their number, rounded down.
pub open spec fn rarity_bonus(staker_count: u64) -> int {
    RARITY_SCALE as int / reward_shares(staker_count)
}

/// The reward of the whole keyword: the pool weighted by the rarity
/// bonus, rounded down.
pub open spec fn base_reward(funds_collected: u64, staker_count: u64) -> int {
    reward_pool(funds_collected) * rarity_bonus(staker_count) / RARITY_SCALE as int
}

/// The reward of one staker: the reward of the keyword divided by the
/// number of stakers, rounded down.
pub open spec fn reward_per_staker(funds_collected: u64, staker_count: u64) -> int {
    base_reward(funds_collected, staker_count) / reward_shares(staker_count)
}

/// Whether a reward can be paid at `now`, and how much one staker gets.
pub open spec fn reward_plan(token: UtilityToken, vault: KeywordVault, now: i64) -> Result<
    u64,
    ErrorCode,
> {
    if now < token.last_reward_time + REWARD_INTERVAL {
        Err(ErrorCode::RewardNotReady)
    } else if vault.total_staked == 0 {
        Err(ErrorCode::NoStakes)
    } else if reward_pool(token.funds_collected) * rarity_bonus(vault.staker_count) > u64::MAX {
        Err(ErrorCode::MathOverflow)
    } else {
        Ok(reward_per_staker(token.funds_collected, vault.staker_count) as u64)
    }
}

/// A distribution at `now` whose payment ended as `paid`: the record of
/// the token after it, and what the caller is told. The interval starts
/// anew only if the reward was paid.
pub open spec fn distribution_step(
    token: UtilityToken,
    vault: KeywordVault,
    now: i64,
    paid: Result<(), Error>,
) -> (UtilityToken, Result<(), EngineError>) {
    match reward_plan(token, vault, now) {
        Err(code) => (token, Err(EngineError::Rule(code))),
        Ok(_) => match paid {
            Err(e) => (token, Err(EngineError::Ledger(e))),
            Ok(_) => (UtilityToken { last_reward_time: now, ..token }, Ok(())),
        },
    }
}

/// The reward of a keyword never exceeds the pool, and the reward of one
/// staker never exceeds the reward of the keyword.
pub proof fn lemma_reward_within_pool(funds_collected: u64, staker_count: u64)
    ensures
        0 <= reward_per_staker(funds_collected, staker_count) <= base_reward(
            funds_collected,
            staker_count,
        ) <= reward_pool(funds_collected) <= u64::MAX,
{
    let pool = reward_pool(funds_collected);
    let shares = reward_shares(staker_count);
    let bonus = rarity_bonus(staker_count);
    let scale = RARITY_SCALE as int;
    assert(0 <= bonus <= scale) by (nonlinear_arith)
        requires
            bonus == scale / shares,
            shares >= 1,
            scale >= 0,
    ;
    assert(0 <= pool * bonus <= pool * scale) by (nonlinear_arith)
        requires
            0 <= bonus <= scale,
            0 <= pool,
    ;
    let base = base_reward(funds_collected, staker_count);
    assert(0 <= base <= pool) by (nonlinear_arith)
        requires
            base == pool * bonus / scale,
            0 <= pool * bonus <= pool * scale,
            scale > 0,
    ;
    let each = reward_per_staker(funds_collected, staker_count);
    assert(0 <= each <= base) by (nonlinear_arith)
        requires
            each == base / shares,
            shares >= 1,
            0 <= base,
    ;
}

/// After a distribution that took place at `first`, every distribution
/// before a full reward interval has passed is refused as `RewardNotReady`,
/// for whichever vault and whatever its payment would do, and leaves the
/// record of the token, and with it the time of the last reward, as it is.
pub proof fn lemma_one_distribution_per_interval(
    token: UtilityToken,
    vault: KeywordVault,
    first: i64,
    paid: Result<(), Error>,
    other_vault: KeywordVault,
    second: i64,
    other_paid: Result<(), Error>,
)
    requires
        distribution_step(token, vault, first, paid).1 is Ok,
        second < first + REWARD_INTERVAL,
    ensures
        ({
            let rewarded = distribution_step(token, vault, first, paid).0;
            &&& rewarded == (UtilityToken { last_reward_time: first, ..token })
            &&& distribution_step(rewarded, other_vault, second, other_paid) == (
                rewarded,
                Err::<(), EngineError>(EngineError::Rule(ErrorCode::RewardNotReady)),
            )
        }),
{
}

/// A distribution changes nothing of the token but the time of the last
/// reward: a record that fits its storage fits it afterwards.
pub proof fn lemma_distribution_keeps_the_token(
    token: UtilityToken,
    vault: KeywordVault,
    now: i64,
    paid: Result<(), Error>,
)
    ensures
        distribution_step(token, vault, now, paid).0 == (UtilityToken {
            last_reward_time: distribution_step(token, vault, now, paid).0.last_reward_time,
            ..token
        }),
        token.wf() ==> distribution_step(token, vault, now, paid).0.wf(),
{
}

/// A distribution that is refused, or whose payment fails, changes
/// nothing.
pub proof fn lemma_failed_distribution_changes_nothing(
    token: UtilityToken,
    vault: KeywordVault,
    now: i64,
    paid: Result<(), Error>,
)
    ensures
        distribution_step(token, vault, now, paid).1 is Err ==> distribution_step(
            token,
            vault,
            now,
            paid,
        ).0 == token,
        now < token.last_reward_time + REWARD_INTERVAL ==> distribution_step(
            token,
            vault,
            now,
            paid,
        ) == (token, Err::<(), EngineError>(EngineError::Rule(ErrorCode::RewardNotReady))),
{
}

/// Decides whether a reward can be paid at `now`, and computes the reward
/// of one staker.
pub fn plan_reward(token: &UtilityToken, vault: &KeywordVault, now: i64) -> (plan: Result<
    u64,
    ErrorCode,
>)
    ensures
        plan == reward_plan(*token, *vault, now),
{
    match token.last_reward_time.checked_add(REWARD_INTERVAL) {
        None => {
            return Err(ErrorCode::RewardNotReady);
        },
        Some(due) => {
            if now < due {
                return Err(ErrorCode::RewardNotReady);
            }
        },
    }
    if vault.total_staked == 0 {
        return Err(ErrorCode::NoStakes);
    }
    let shares: u64 = if vault.staker_count == 0 {
        1
    } else {
        vault.staker_count
    };
    let pool: u64 = token.funds_collected / POOL_DIVISOR;
    let bonus: u64 = RARITY_SCALE / shares;
    match pool.checked_mul(bonus) {
        None => Err(ErrorCode::MathOverflow),
        Some(weighted) => {
            let base: u64 = weighted / RARITY_SCALE;
            Ok(base / shares)
        },
    }
}

/// Starts the reward interval anew once the payment of the reward has
/// ended as `paid`.
pub fn settle_distribution(
    token: &mut UtilityToken,
    vault: &KeywordVault,
    now: i64,
    paid: Result<(), Error>,
) -> (r: Result<(), EngineError>)
    ensures
        (*final(token), r) == distribution_step(*old(token), *vault, now, paid),
{
    match plan_reward(token, vault, now) {
        Err(code) => Err(EngineError::Rule(code)),
        Ok(_) => match paid {
            Err(e) => Err(EngineError::Ledger(e)),
            Ok(_) => {
                token.last_reward_time = now;
                Ok(())
            },
        },
    }
}

/// What a distribution works on.
pub struct DistributeRewards<'info> {
    pub utility_token: UtilityToken,
    pub keyword_vault: KeywordVault,
    /// Where rewards are paid from.
    pub reward_vault: AccountInfo<'info>,
    /// Where the staker is paid.
    pub staker_token_account: AccountInfo<'info>,
    /// The administrator, on whose authority the reward vault pays out.
    pub admin: Signer<'info>,
    pub token_program: AccountInfo<'info>,
}

/// Pays the reward of one staker of the keyword at `now`, and starts the
/// reward interval of the token anew when it has been paid.
///
/// Nothing is paid unless [`reward_plan`] allows it, and what is paid is
/// the reward it computes. Whether the payment arrives is for the token
/// program to say. Whatever it says, the record of the token and the result
/// are those of [`distribution_step`] for that outcome.
pub fn distribute_rewards<'info>(ctx: &mut DistributeRewards<'info>, now: i64) -> (r: Result<
    (),
    EngineError,
>)
    ensures
        exists|paid: Result<(), Error>|
            (final(ctx).utility_token, r) == #[trigger] distribution_step(
                old(ctx).utility_token,
                old(ctx).keyword_vault,
                now,
                paid,
            ),
        *final(ctx) == (DistributeRewards { utility_token: final(ctx).utility_token, ..*old(ctx) }),
        match reward_plan(old(ctx).utility_token, old(ctx).keyword_vault, now) {
            Err(code) => r == Err::<(), EngineError>(EngineError::Rule(code)),
            Ok(_) => r is Ok || r->Err_0 is Ledger,
        },
{
    let reward: u64 = match plan_reward(&ctx.utility_token, &ctx.keyword_vault, now) {
        Ok(reward) => reward,
        Err(code) => {
            assert((ctx.utility_token, Err::<(), EngineError>(EngineError::Rule(code)))
                == distribution_step(ctx.utility_token, ctx.keyword_vault, now, Ok(())));
            return Err(EngineError::Rule(code));
        },
    };
    let paid = transfer(
        &ctx.token_program,
        &ctx.reward_vault,
        &ctx.staker_token_account,
        &ctx.admin.info,
        reward,
    );
    let r = settle_distribution(&mut ctx.utility_token, &ctx.keyword_vault, now, paid);
    r
}

} // verus!
