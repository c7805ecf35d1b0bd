//! What holds across calls: who administers the configuration, that an
//! outcome is revealed once, that a stake is paid out once, and that reward
//! and refund exclude each other.

use crate::accounts::{ClaimView, RevealView, UpdateConfig, UserPredictionView, WithdrawView};
use crate::address::Address;
use crate::claim::{claim_done, claim_error};
use crate::configure::{configured, update_config_error};
use crate::error::{ErrorCode, ErrorKind};
use crate::predict::{predict_done, predict_error};
use crate::revealing::{reveal_done, reveal_error};
use crate::state::Config;
use crate::withdraw::{withdraw_done, withdraw_error};
use vstd::prelude::*;

verus! {

/// One attempt to write the configuration.
pub struct ConfigCall {
    pub caller: Address,
    pub protocol_fee: u8,
    pub fee_receiver: Address,
    pub is_paused: bool,
}

/// The configuration after the given attempts to write it, made in order.
/// An attempt that is refused leaves it as it was.
pub open spec fn config_after(config: Config, calls: Seq<ConfigCall>) -> Config
    decreases calls.len(),
{
    if calls.len() == 0 {
        config
    } else {
        let before = config_after(config, calls.drop_last());
        let call = calls.last();
        let s = UpdateConfig { config: before, admin: call.caller };
        if update_config_error(s) is None {
            configured(s, call.protocol_fee, call.fee_receiver, call.is_paused)
        } else {
            before
        }
    }
}

/// A configuration that has an administrator keeps it, whatever attempts are
/// made to write it.
pub proof fn lemma_admin_is_kept(config: Config, calls: Seq<ConfigCall>)
    requires
        !config.admin.is_unset(),
    ensures
        config_after(config, calls).admin == config.admin,
    decreases calls.len(),
{
    if calls.len() > 0 {
        lemma_admin_is_kept(config, calls.drop_last());
    }
}

/// The first party that writes the configuration is its administrator from
/// then on: after any further attempts, a call by another party is refused as
/// unauthorized. The party must not be the unset address, which never becomes
/// an administrator.
pub proof fn lemma_single_admin(
    first: UpdateConfig,
    protocol_fee: u8,
    fee_receiver: Address,
    is_paused: bool,
    calls: Seq<ConfigCall>,
    other: Address,
)
    requires
        update_config_error(first) is None,
        !first.admin.is_unset(),
        other != first.admin,
    ensures
        ({
            let written = configured(first, protocol_fee, fee_receiver, is_paused);
            let later = UpdateConfig { config: config_after(written, calls), admin: other };
            &&& written.admin == first.admin
            &&& later.config.admin == first.admin
            &&& update_config_error(later) == Some(ErrorCode::InvalidOwner)
            &&& ErrorCode::InvalidOwner.spec_kind() == ErrorKind::Unauthorized
        }),
{
    lemma_admin_is_kept(configured(first, protocol_fee, fee_receiver, is_paused), calls);
}

/// Writing the configuration twice, by the same caller and with the same
/// values, is accepted and leaves what writing it once leaves.
pub proof fn lemma_update_config_idempotent(
    first: UpdateConfig,
    protocol_fee: u8,
    fee_receiver: Address,
    is_paused: bool,
)
    requires
        update_config_error(first) is None,
    ensures
        ({
            let written = configured(first, protocol_fee, fee_receiver, is_paused);
            let second = UpdateConfig { config: written, admin: first.admin };
            &&& update_config_error(second) is None
            &&& configured(second, protocol_fee, fee_receiver, is_paused) == written
        }),
{
}

/// The terms of a market are fixed when it is created: a stake changes what
/// its pool and one option hold, a reveal records the outcome, and neither
/// touches a term.
pub proof fn lemma_terms_are_kept(
    p: UserPredictionView,
    option_index: nat,
    amount: nat,
    r: RevealView,
    result_index: nat,
)
    requires
        predict_error(p.prediction, p.user_option, p.now, option_index, amount) is None,
    ensures
        predict_done(p, option_index, amount).prediction.same_terms(p.prediction),
        reveal_done(r, result_index).prediction.same_terms(r.prediction),
        reveal_done(r, result_index).prediction.total_pool == r.prediction.total_pool,
        reveal_done(r, result_index).prediction.participants == r.prediction.participants,
        reveal_done(r, result_index).prediction.options == r.prediction.options,
{
}

/// A stake writes neither the outcome nor the time of its reveal, and keeps
/// whether a participation has been paid out.
pub proof fn lemma_predict_keeps_outcome(s: UserPredictionView, option_index: nat, amount: nat)
    ensures
        ({
            let after = predict_done(s, option_index, amount);
            &&& after.prediction.revealed_time == s.prediction.revealed_time
            &&& after.prediction.result_index == s.prediction.result_index
            &&& after.user_option.claimed == s.user_option.claimed
            &&& after.user_option.amount >= s.user_option.amount
        }),
{
}

/// A reward and a refund leave the market as it is and never take back that
/// a participation has been paid out.
pub proof fn lemma_payout_keeps_market(c: ClaimView, w: WithdrawView)
    ensures
        claim_done(c).prediction == c.prediction,
        claim_done(c).user_option.claimed,
        claim_done(c).user_option.amount == c.user_option.amount,
        withdraw_done(w).prediction == w.prediction,
        withdraw_done(w).user_option.claimed,
        withdraw_done(w).user_option.amount == w.user_option.amount,
{
}

/// An outcome is revealed once. After a reveal, made at a time other than 0,
/// every further reveal on that market is refused: as `PredictionEnded` when
/// it comes within the window for reveals, as out of time otherwise. The
/// market then still has the outcome and the reveal time of the first reveal,
/// since a refused call changes nothing.
///
/// A reveal at the time 0 records 0 as its time, which is how a market
/// without outcome is told: that market can be revealed again.
pub proof fn lemma_reveal_once(
    first: RevealView,
    result_index: nat,
    second: RevealView,
    second_index: nat,
)
    requires
        reveal_error(first, result_index) is None,
        first.now != 0,
        second.prediction.revealed_time == reveal_done(first, result_index).prediction.revealed_time,
    ensures
        reveal_done(first, result_index).prediction.is_revealed(),
        reveal_done(first, result_index).prediction.result_index == result_index,
        reveal_done(first, result_index).prediction.revealed_time == first.now,
        reveal_error(second, second_index) is Some,
        second.prediction.ended_time <= second.now <= second.prediction.reveal_deadline
            ==> reveal_error(second, second_index) == Some(ErrorCode::PredictionEnded),
        second.now < second.prediction.ended_time ==> reveal_error(second, second_index) == Some(
            ErrorCode::PredictionStillOpen,
        ),
        second.prediction.ended_time <= second.now && second.now
            > second.prediction.reveal_deadline ==> reveal_error(second, second_index) == Some(
            ErrorCode::RevealDeadlinePassed,
        ),
        ErrorCode::PredictionEnded.spec_kind() == ErrorKind::AlreadySettled,
{
}

/// Once the outcome is revealed no stake is refunded: a withdrawal is refused
/// as `PredictionAlreadyRevealed` when the reveal deadline has passed, and as
/// `PredictionNotExpired` before.
pub proof fn lemma_revealed_excludes_withdraw(s: WithdrawView)
    requires
        s.prediction.is_revealed(),
    ensures
        withdraw_error(s) is Some,
        s.now > s.prediction.reveal_deadline ==> withdraw_error(s) == Some(
            ErrorCode::PredictionAlreadyRevealed,
        ),
        s.now <= s.prediction.reveal_deadline ==> withdraw_error(s) == Some(
            ErrorCode::PredictionNotExpired,
        ),
        ErrorCode::PredictionAlreadyRevealed.spec_kind() == ErrorKind::AlreadySettled,
{
}

/// While the outcome is not revealed no reward is paid, at any time and so
/// also past the reveal deadline: a claim is refused as `ResultNotRevealed`.
pub proof fn lemma_unrevealed_excludes_claim(s: ClaimView)
    requires
        !s.prediction.is_revealed(),
    ensures
        claim_error(s) == Some(ErrorCode::ResultNotRevealed),
        ErrorCode::ResultNotRevealed.spec_kind() == ErrorKind::NotYetSettled,
{
}

/// On one market a claim and a withdrawal never both succeed.
pub proof fn lemma_claim_or_withdraw(c: ClaimView, w: WithdrawView)
    requires
        w.prediction.revealed_time == c.prediction.revealed_time,
    ensures
        claim_error(c) is Some || withdraw_error(w) is Some,
{
}

/// A participation that has been paid out is never paid again: every claim
/// and every withdrawal on it is refused, whatever the market, the balance and
/// the time.
pub proof fn lemma_paid_out_once(c: ClaimView, w: WithdrawView)
    requires
        c.user_option.claimed,
        w.user_option.claimed,
    ensures
        claim_error(c) is Some,
        withdraw_error(w) is Some,
{
}

/// A second claim on the same participation is refused as `AlreadyClaimed`,
/// whatever the market's balance is by then.
pub proof fn lemma_claim_twice(first: ClaimView, second: ClaimView)
    requires
        claim_error(first) is None,
        second.prediction == claim_done(first).prediction,
        second.user_option == claim_done(first).user_option,
    ensures
        claim_error(second) == Some(ErrorCode::AlreadyClaimed),
        ErrorCode::AlreadyClaimed.spec_kind() == ErrorKind::AlreadySettled,
{
}

/// A second withdrawal on the same participation is refused, as
/// `AlreadyClaimed` when it comes after the reveal deadline as the first did.
pub proof fn lemma_withdraw_twice(first: WithdrawView, second: WithdrawView)
    requires
        withdraw_error(first) is None,
        second.prediction == withdraw_done(first).prediction,
        second.user_option == withdraw_done(first).user_option,
    ensures
        withdraw_error(second) is Some,
        second.now > second.prediction.reveal_deadline ==> withdraw_error(second) == Some(
            ErrorCode::AlreadyClaimed,
        ),
{
}

} // verus!
