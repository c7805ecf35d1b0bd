//! Paying a winning stake its share of the pool.

use crate::accounts::{Claim, ClaimView};
use crate::error::ErrorCode;
use crate::events::RewardClaimed;
use crate::math::{reward_pool, reward_pool_amount, reward_share, reward_share_amount, PERCENT};
use crate::state::{PredictionView, UserOptionView};
use vstd::prelude::*;

verus! {

/// What is left of the pool of the given market for its winners.
pub open spec fn winners_pool(m: PredictionView) -> nat
    recommends
        m.creator_fee + m.protocol_fee <= PERCENT,
{
    reward_pool(m.total_pool, m.creator_fee, m.protocol_fee)
}

/// All that is staked on the option that won.
pub open spec fn winning_total(m: PredictionView) -> nat
    recommends
        m.result_index < m.options.len(),
{
    m.options[m.result_index as int].amount
}

/// The reward of a stake on the winning option of the given market: its share
/// of the winners' pool, in proportion to all that is staked on that option.
pub open spec fn reward_of(m: PredictionView, stake: nat) -> nat
    recommends
        m.creator_fee + m.protocol_fee <= PERCENT,
        m.result_index < m.options.len(),
        winning_total(m) > 0,
{
    reward_share(stake, winners_pool(m), winning_total(m))
}

/// Why the participation cannot be paid its reward, if it cannot. The checks
/// are made in this order and the first that fails decides.
///
/// A reward has no value, which is reported as `MathOverflow`, when the two
/// fees together are more than the whole pool or when nothing is staked on the
/// option that won.
pub open spec fn claim_error(s: ClaimView) -> Option<ErrorCode> {
    let m = s.prediction;
    let record = s.user_option;
    if !m.is_revealed() {
        Some(ErrorCode::ResultNotRevealed)
    } else if record.option_index != m.result_index {
        Some(ErrorCode::WrongOption)
    } else if record.claimed {
        Some(ErrorCode::AlreadyClaimed)
    } else if m.result_index >= m.options.len() {
        Some(ErrorCode::InvalidOption)
    } else if m.creator_fee + m.protocol_fee > PERCENT || winning_total(m) == 0 {
        Some(ErrorCode::MathOverflow)
    } else if s.pool_balance < reward_of(m, record.amount) {
        Some(ErrorCode::InsufficientFunds)
    } else {
        None
    }
}

/// The given participation once it is paid out.
pub open spec fn paid_out(record: UserOptionView) -> UserOptionView {
    UserOptionView { claimed: true, ..record }
}

/// What a claim leaves: the participation is paid out and its reward has
/// left the market's balance.
pub open spec fn claim_done(s: ClaimView) -> ClaimView {
    ClaimView {
        pool_balance: (s.pool_balance - reward_of(s.prediction, s.user_option.amount)) as nat,
        user_option: paid_out(s.user_option),
        ..s
    }
}

/// Pays the caller's participation its reward.
///
/// The checks are made in the order of [`claim_error`]; when one fails its
/// error is returned and nothing changes. Otherwise the participation is
/// marked as paid out, its reward leaves the market's balance, and the
/// notification gives what the host has to pay to the caller.
pub fn claim(ctx: &mut Claim) -> (res: Result<RewardClaimed, ErrorCode>)
    ensures
        match claim_error(old(ctx)@) {
            Some(e) => res == Err::<RewardClaimed, ErrorCode>(e) && *final(ctx) == *old(ctx),
            None => {
                &&& res matches Ok(event)
                &&& event.pred_key == old(ctx).prediction_key
                &&& event.up_key == old(ctx).user_option_key
                &&& event.user == old(ctx).user
                &&& event.principal == old(ctx).user_option.amount
                &&& event.reward == reward_of(old(ctx)@.prediction, old(ctx)@.user_option.amount)
                &&& final(ctx)@ == claim_done(old(ctx)@)
            },
        },
{
    if ctx.prediction.revealed_time == 0 {
        return Err(ErrorCode::ResultNotRevealed);
    }
    if ctx.user_option.option_index != ctx.prediction.result_index {
        return Err(ErrorCode::WrongOption);
    }
    if ctx.user_option.claimed {
        return Err(ErrorCode::AlreadyClaimed);
    }
    let index = ctx.prediction.result_index as usize;
    if index >= ctx.prediction.options.len() {
        return Err(ErrorCode::InvalidOption);
    }
    let pool = match reward_pool_amount(
        ctx.prediction.total_pool,
        ctx.prediction.creator_fee,
        ctx.prediction.protocol_fee,
    ) {
        Some(pool) => pool,
        None => { return Err(ErrorCode::MathOverflow); },
    };
    let winning = ctx.prediction.options[index].amount;
    if winning == 0 {
        return Err(ErrorCode::MathOverflow);
    }
    let principal = ctx.user_option.amount;
    let reward = match reward_share_amount(principal, pool, winning) {
        Some(reward) => reward,
        None => { return Err(ErrorCode::InsufficientFunds); },
    };
    if ctx.pool_balance < reward {
        return Err(ErrorCode::InsufficientFunds);
    }
    ctx.user_option.claimed = true;
    ctx.pool_balance = ctx.pool_balance - reward;
    Ok(
        RewardClaimed {
            pred_key: ctx.prediction_key,
            up_key: ctx.user_option_key,
            user: ctx.user,
            principal,
            reward,
        },
    )
}

} // verus!
