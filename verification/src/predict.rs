//! Staking on an option of a market.

use crate::accounts::{UserPrediction, UserPredictionView};
use crate::address::Address;
use crate::error::ErrorCode;
use crate::events::UserPredicted;
use crate::state::{
    lemma_with_stake_total, option_views, with_stake, PredictionView, UserOption, UserOptionView,
};
use vstd::prelude::*;

verus! {

/// Why a stake cannot be placed, if it cannot: `amount` on the option at
/// `option_index` of the market `m`, at the time `now`, by the party whose
/// participation for that option is `record`. The checks are made in this
/// order and the first that fails decides.
///
/// `MathOverflow` says that the market's count of participations, its pool,
/// the option or the participation would grow beyond what it can hold.
pub open spec fn predict_error(
    m: PredictionView,
    record: UserOptionView,
    now: int,
    option_index: nat,
    amount: nat,
) -> Option<ErrorCode> {
    if now > m.ended_time {
        Some(ErrorCode::PredictionClosed)
    } else if option_index >= m.options.len() {
        Some(ErrorCode::InvalidOption)
    } else if (record.amount == 0 && m.participants + 1 > u32::MAX) || m.total_pool + amount
        > u64::MAX || m.options[option_index as int].amount + amount > u64::MAX || record.amount
        + amount > u64::MAX {
        Some(ErrorCode::MathOverflow)
    } else {
        None
    }
}

/// The given market with `amount` more staked on the option at
/// `option_index`. The stake counts as one more participation when it is the
/// first of its record.
pub open spec fn predicted_market(
    m: PredictionView,
    option_index: nat,
    amount: nat,
    first: bool,
) -> PredictionView {
    PredictionView {
        participants: if first {
            m.participants + 1
        } else {
            m.participants
        },
        total_pool: m.total_pool + amount,
        options: with_stake(m.options, option_index as int, amount),
        ..m
    }
}

/// The given participation with `amount` more staked: it carries the staking
/// party and the option, and keeps whether it has been paid out.
pub open spec fn predicted_record(
    record: UserOptionView,
    user: Address,
    option_index: nat,
    amount: nat,
) -> UserOptionView {
    UserOptionView { user, option_index, amount: record.amount + amount, claimed: record.claimed }
}

/// What a stake leaves: the market and the participation both hold `amount`
/// more.
pub open spec fn predict_done(
    s: UserPredictionView,
    option_index: nat,
    amount: nat,
) -> UserPredictionView {
    UserPredictionView {
        prediction: predicted_market(
            s.prediction,
            option_index,
            amount,
            s.user_option.amount == 0,
        ),
        user_option: predicted_record(s.user_option, s.user, option_index, amount),
        ..s
    }
}

/// A stake keeps a market well formed: its pool is still the sum of what its
/// options hold.
pub proof fn lemma_predict_keeps_wf(
    m: PredictionView,
    record: UserOptionView,
    now: int,
    option_index: nat,
    amount: nat,
)
    requires
        m.wf(),
        predict_error(m, record, now, option_index, amount) is None,
    ensures
        predicted_market(m, option_index, amount, record.amount == 0).wf(),
{
    let after = predicted_market(m, option_index, amount, record.amount == 0);
    lemma_with_stake_total(m.options, option_index as int, amount);
    assert forall|i: int| 0 <= i < after.options.len() implies #[trigger] after.options[i].label
        == m.options[i].label by {}
}

/// Stakes `amount` of the caller on the option at `option_index`.
///
/// The checks are made in the order of [`predict_error`]; when one fails its
/// error is returned and nothing changes. Otherwise the market's pool, the
/// option and the caller's participation each grow by `amount`, the market
/// counts one more participation if this record held nothing before, and the
/// notification gives what the host has to move from the caller to the market.
pub fn predict(ctx: &mut UserPrediction, option_index: u8, amount: u64) -> (res: Result<
    UserPredicted,
    ErrorCode,
>)
    ensures
        match predict_error(
            old(ctx)@.prediction,
            old(ctx)@.user_option,
            old(ctx)@.now,
            option_index as nat,
            amount as nat,
        ) {
            Some(e) => res == Err::<UserPredicted, ErrorCode>(e) && *final(ctx) == *old(ctx),
            None => {
                &&& final(ctx)@ == predict_done(old(ctx)@, option_index as nat, amount as nat)
                &&& res == Ok::<UserPredicted, ErrorCode>(
                    UserPredicted {
                        pred_key: old(ctx).prediction_key,
                        pred_total_pool: final(ctx).prediction.total_pool,
                        pred_participants: final(ctx).prediction.participants,
                        up_key: old(ctx).user_option_key,
                        user: old(ctx).user,
                        option_index,
                        amount,
                    },
                )
                &&& old(ctx)@.prediction.wf() ==> final(ctx)@.prediction.wf()
            },
        },
{
    if ctx.now > ctx.prediction.ended_time {
        return Err(ErrorCode::PredictionClosed);
    }
    let index = option_index as usize;
    if index >= ctx.prediction.options.len() {
        return Err(ErrorCode::InvalidOption);
    }
    let participants = if ctx.user_option.amount == 0 {
        match ctx.prediction.participants.checked_add(1) {
            Some(count) => count,
            None => { return Err(ErrorCode::MathOverflow); },
        }
    } else {
        ctx.prediction.participants
    };
    let total_pool = match ctx.prediction.total_pool.checked_add(amount) {
        Some(sum) => sum,
        None => { return Err(ErrorCode::MathOverflow); },
    };
    let option_amount = match ctx.prediction.options[index].amount.checked_add(amount) {
        Some(sum) => sum,
        None => { return Err(ErrorCode::MathOverflow); },
    };
    let staked = match ctx.user_option.amount.checked_add(amount) {
        Some(sum) => sum,
        None => { return Err(ErrorCode::MathOverflow); },
    };
    ctx.prediction.participants = participants;
    ctx.prediction.total_pool = total_pool;
    ctx.prediction.options[index].amount = option_amount;
    ctx.user_option = UserOption {
        user: ctx.user,
        option_index,
        amount: staked,
        claimed: ctx.user_option.claimed,
    };
    proof {
        assert(option_views(ctx.prediction.options@) =~= with_stake(
            option_views(old(ctx).prediction.options@),
            index as int,
            amount as nat,
        ));
        if old(ctx)@.prediction.wf() {
            lemma_predict_keeps_wf(
                old(ctx)@.prediction,
                old(ctx)@.user_option,
                old(ctx)@.now,
                option_index as nat,
                amount as nat,
            );
        }
    }
    Ok(
        UserPredicted {
            pred_key: ctx.prediction_key,
            pred_total_pool: total_pool,
            pred_participants: participants,
            up_key: ctx.user_option_key,
            user: ctx.user,
            option_index,
            amount,
        },
    )
}

} // verus!
