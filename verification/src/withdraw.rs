//! Refunding a stake when the outcome was not revealed in time.

use crate::accounts::{Withdraw, WithdrawView};
use crate::claim::paid_out;
use crate::error::ErrorCode;
use crate::events::UserWithdrawn;
use vstd::prelude::*;

verus! {

/// Why the participation cannot be refunded, if it cannot. The checks are
/// made in this order and the first that fails decides.
pub open spec fn withdraw_error(s: WithdrawView) -> Option<ErrorCode> {
    let m = s.prediction;
    if s.now <= m.reveal_deadline {
        Some(ErrorCode::PredictionNotExpired)
    } else if m.is_revealed() {
        Some(ErrorCode::PredictionAlreadyRevealed)
    } else if s.user_option.claimed {
        Some(ErrorCode::AlreadyClaimed)
    } else if s.pool_balance < s.user_option.amount {
        Some(ErrorCode::InsufficientFunds)
    } else {
        None
    }
}

/// What a withdrawal leaves: the participation is paid out and all of its
/// stake has left the market's balance.
pub open spec fn withdraw_done(s: WithdrawView) -> WithdrawView {
    WithdrawView {
        pool_balance: (s.pool_balance - s.user_option.amount) as nat,
        user_option: paid_out(s.user_option),
        ..s
    }
}

/// Refunds the caller's participation in full, whichever option it backs.
///
/// The checks are made in the order of [`withdraw_error`]; when one fails its
/// error is returned and nothing changes. Otherwise the participation is
/// marked as paid out, its stake leaves the market's balance, and the
/// notification gives what the host has to pay back to the caller.
pub fn withdraw(ctx: &mut Withdraw) -> (res: Result<UserWithdrawn, ErrorCode>)
    ensures
        match withdraw_error(old(ctx)@) {
            Some(e) => res == Err::<UserWithdrawn, ErrorCode>(e) && *final(ctx) == *old(ctx),
            None => {
                &&& res == Ok::<UserWithdrawn, ErrorCode>(
                    UserWithdrawn {
                        pred_key: old(ctx).prediction_key,
                        up_key: old(ctx).user_option_key,
                        user: old(ctx).user,
                        amount: old(ctx).user_option.amount,
                    },
                )
                &&& final(ctx)@ == withdraw_done(old(ctx)@)
            },
        },
{
    if ctx.now <= ctx.prediction.reveal_deadline {
        return Err(ErrorCode::PredictionNotExpired);
    }
    if ctx.prediction.revealed_time != 0 {
        return Err(ErrorCode::PredictionAlreadyRevealed);
    }
    if ctx.user_option.claimed {
        return Err(ErrorCode::AlreadyClaimed);
    }
    let amount = ctx.user_option.amount;
    if ctx.pool_balance < amount {
        return Err(ErrorCode::InsufficientFunds);
    }
    ctx.user_option.claimed = true;
    ctx.pool_balance = ctx.pool_balance - amount;
    Ok(
        UserWithdrawn {
            pred_key: ctx.prediction_key,
            up_key: ctx.user_option_key,
            user: ctx.user,
            amount,
        },
    )
}

} // verus!
