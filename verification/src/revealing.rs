//! Revealing the outcome of a market and taking the fees.

use crate::accounts::{Reveal, RevealView};
use crate::error::ErrorCode;
use crate::events::PredictionRevealed;
use crate::math::{percent_of, percent_of_amount};
use crate::state::PredictionView;
use vstd::prelude::*;

verus! {

/// The creator's fee on the pool of the given market.
pub open spec fn creator_cut(m: PredictionView) -> nat {
    percent_of(m.total_pool, m.creator_fee)
}

/// The protocol's fee on the pool of the given market.
pub open spec fn protocol_cut(m: PredictionView) -> nat {
    percent_of(m.total_pool, m.protocol_fee)
}

/// Why the outcome cannot be revealed, if it cannot. The checks are made in
/// this order and the first that fails decides.
pub open spec fn reveal_error(s: RevealView, result_index: nat) -> Option<ErrorCode> {
    let m = s.prediction;
    if s.now < m.ended_time {
        Some(ErrorCode::PredictionStillOpen)
    } else if s.now > m.reveal_deadline {
        Some(ErrorCode::RevealDeadlinePassed)
    } else if m.is_revealed() {
        Some(ErrorCode::PredictionEnded)
    } else if s.creator != m.creator {
        Some(ErrorCode::InvalidCreator)
    } else if s.fee_receiver != s.config.fee_receiver {
        Some(ErrorCode::InvalidFeeReceiver)
    } else if result_index >= m.options.len() {
        Some(ErrorCode::InvalidOption)
    } else if s.pool_balance < creator_cut(m) + protocol_cut(m) {
        Some(ErrorCode::InsufficientFunds)
    } else {
        None
    }
}

/// The given market with its outcome revealed at the time `now`.
pub open spec fn revealed(m: PredictionView, result_index: nat, now: int) -> PredictionView {
    PredictionView { result_index, revealed_time: now, ..m }
}

/// What a reveal leaves: the outcome is recorded and both fees have left the
/// market's balance.
pub open spec fn reveal_done(s: RevealView, result_index: nat) -> RevealView {
    RevealView {
        prediction: revealed(s.prediction, result_index, s.now),
        pool_balance: (s.pool_balance - creator_cut(s.prediction) - protocol_cut(
            s.prediction,
        )) as nat,
        ..s
    }
}

/// Records the outcome of the market and takes the creator's and the
/// protocol's fee out of its balance.
///
/// The checks are made in the order of [`reveal_error`]; when one fails its
/// error is returned and nothing changes. Otherwise the market becomes
/// [`revealed`], the two fees leave its balance, and the notification gives
/// what the host has to pay to the creator and to the fee receiver.
pub fn reveal_result(ctx: &mut Reveal, result_index: u8) -> (res: Result<
    PredictionRevealed,
    ErrorCode,
>)
    ensures
        match reveal_error(old(ctx)@, result_index as nat) {
            Some(e) => res == Err::<PredictionRevealed, ErrorCode>(e) && *final(ctx) == *old(ctx),
            None => {
                &&& res matches Ok(event)
                &&& event.pred_key == old(ctx).prediction_key
                &&& event.result_index == result_index
                &&& event.creator_amount == creator_cut(old(ctx)@.prediction)
                &&& event.protocol_amount == protocol_cut(old(ctx)@.prediction)
                &&& final(ctx)@ == reveal_done(old(ctx)@, result_index as nat)
                &&& old(ctx)@.prediction.wf() ==> final(ctx)@.prediction.wf()
            },
        },
{
    let now = ctx.now;
    if now < ctx.prediction.ended_time {
        return Err(ErrorCode::PredictionStillOpen);
    }
    if now > ctx.prediction.reveal_deadline {
        return Err(ErrorCode::RevealDeadlinePassed);
    }
    if ctx.prediction.revealed_time != 0 {
        return Err(ErrorCode::PredictionEnded);
    }
    if ctx.creator != ctx.prediction.creator {
        return Err(ErrorCode::InvalidCreator);
    }
    if ctx.fee_receiver != ctx.config.fee_receiver {
        return Err(ErrorCode::InvalidFeeReceiver);
    }
    if result_index as usize >= ctx.prediction.options.len() {
        return Err(ErrorCode::InvalidOption);
    }
    let creator_amount = match percent_of_amount(
        ctx.prediction.total_pool,
        ctx.prediction.creator_fee,
    ) {
        Some(amount) => amount,
        None => { return Err(ErrorCode::InsufficientFunds); },
    };
    let protocol_amount = match percent_of_amount(
        ctx.prediction.total_pool,
        ctx.prediction.protocol_fee,
    ) {
        Some(amount) => amount,
        None => { return Err(ErrorCode::InsufficientFunds); },
    };
    if (ctx.pool_balance as u128) < creator_amount as u128 + protocol_amount as u128 {
        return Err(ErrorCode::InsufficientFunds);
    }
    ctx.prediction.result_index = result_index;
    ctx.prediction.revealed_time = now;
    ctx.pool_balance = ctx.pool_balance - creator_amount - protocol_amount;
    Ok(
        PredictionRevealed {
            pred_key: ctx.prediction_key,
            result_index,
            creator_amount,
            protocol_amount,
        },
    )
}

} // verus!
