//! What the host hands to each operation: the records it works on, the
//! parties involved, the market's pooled balance and the current time.
//!
//! The host loads the records from their addresses, calls the operation and,
//! when it succeeds, stores the records back and moves what the returned
//! notification says. A participation is stored under its owner, its market
//! and its option, so a party has at most one per option of a market.

use crate::address::Address;
use crate::state::{Config, Prediction, PredictionView, UserOption, UserOptionView};
use vstd::prelude::*;

verus! {

/// The inputs of [`update_config`](crate::update_config).
#[derive(Clone, Copy, Debug, PartialEq, Eq)]
pub struct UpdateConfig {
    pub config: Config,
    /// The caller.
    pub admin: Address,
}

/// The inputs of [`create`](crate::create).
#[derive(Clone, Debug, PartialEq, Eq)]
pub struct CreatePrediction {
    /// The record that the market is created in. What it held before is
    /// overwritten.
    pub prediction: Prediction,
    /// Where the market is stored.
    pub prediction_key: Address,
    /// The caller.
    pub creator: Address,
    pub config: Config,
    /// The current time.
    pub now: i64,
}

/// The value of a [`CreatePrediction`].
pub struct CreatePredictionView {
    pub prediction: PredictionView,
    pub prediction_key: Address,
    pub creator: Address,
    pub config: Config,
    pub now: int,
}

impl View for CreatePrediction {
    type V = CreatePredictionView;

    open spec fn view(&self) -> CreatePredictionView {
        CreatePredictionView {
            prediction: self.prediction@,
            prediction_key: self.prediction_key,
            creator: self.creator,
            config: self.config,
            now: self.now as int,
        }
    }
}

/// The inputs of [`predict`](crate::predict).
#[derive(Clone, Debug, PartialEq, Eq)]
pub struct UserPrediction {
    pub prediction: Prediction,
    /// Where the market is stored.
    pub prediction_key: Address,
    /// The caller's participation for the option staked on; the record of a
    /// party that has not staked yet, if there is none.
    pub user_option: UserOption,
    /// Where the participation is stored.
    pub user_option_key: Address,
    /// The caller.
    pub user: Address,
    /// The current time.
    pub now: i64,
}

/// The value of a [`UserPrediction`].
pub struct UserPredictionView {
    pub prediction: PredictionView,
    pub prediction_key: Address,
    pub user_option: UserOptionView,
    pub user_option_key: Address,
    pub user: Address,
    pub now: int,
}

impl View for UserPrediction {
    type V = UserPredictionView;

    open spec fn view(&self) -> UserPredictionView {
        UserPredictionView {
            prediction: self.prediction@,
            prediction_key: self.prediction_key,
            user_option: self.user_option@,
            user_option_key: self.user_option_key,
            user: self.user,
            now: self.now as int,
        }
    }
}

/// The inputs of [`reveal_result`](crate::reveal_result).
#[derive(Clone, Debug, PartialEq, Eq)]
pub struct Reveal {
    pub prediction: Prediction,
    /// Where the market is stored.
    pub prediction_key: Address,
    /// The balance that the market holds.
    pub pool_balance: u64,
    pub config: Config,
    /// The caller.
    pub creator: Address,
    /// The party that is to receive the protocol's fee.
    pub fee_receiver: Address,
    /// The current time.
    pub now: i64,
}

/// The value of a [`Reveal`].
pub struct RevealView {
    pub prediction: PredictionView,
    pub prediction_key: Address,
    pub pool_balance: nat,
    pub config: Config,
    pub creator: Address,
    pub fee_receiver: Address,
    pub now: int,
}

impl View for Reveal {
    type V = RevealView;

    open spec fn view(&self) -> RevealView {
        RevealView {
            prediction: self.prediction@,
            prediction_key: self.prediction_key,
            pool_balance: self.pool_balance as nat,
            config: self.config,
            creator: self.creator,
            fee_receiver: self.fee_receiver,
            now: self.now as int,
        }
    }
}

/// The inputs of [`claim`](crate::claim).
#[derive(Clone, Debug, PartialEq, Eq)]
pub struct Claim {
    pub prediction: Prediction,
    /// Where the market is stored.
    pub prediction_key: Address,
    /// The balance that the market holds.
    pub pool_balance: u64,
    /// The caller's participation.
    pub user_option: UserOption,
    /// Where the participation is stored.
    pub user_option_key: Address,
    /// The caller.
    pub user: Address,
}

/// The value of a [`Claim`].
pub struct ClaimView {
    pub prediction: PredictionView,
    pub prediction_key: Address,
    pub pool_balance: nat,
    pub user_option: UserOptionView,
    pub user_option_key: Address,
    pub user: Address,
}

impl View for Claim {
    type V = ClaimView;

    open spec fn view(&self) -> ClaimView {
        ClaimView {
            prediction: self.prediction@,
            prediction_key: self.prediction_key,
            pool_balance: self.pool_balance as nat,
            user_option: self.user_option@,
            user_option_key: self.user_option_key,
            user: self.user,
        }
    }
}

/// The inputs of [`withdraw`](crate::withdraw).
#[derive(Clone, Debug, PartialEq, Eq)]
pub struct Withdraw {
    pub prediction: Prediction,
    /// Where the market is stored.
    pub prediction_key: Address,
    /// The balance that the market holds.
    pub pool_balance: u64,
    /// The caller's participation.
    pub user_option: UserOption,
    /// Where the participation is stored.
    pub user_option_key: Address,
    /// The caller.
    pub user: Address,
    /// The current time.
    pub now: i64,
}

/// The value of a [`Withdraw`].
pub struct WithdrawView {
    pub prediction: PredictionView,
    pub prediction_key: Address,
    pub pool_balance: nat,
    pub user_option: UserOptionView,
    pub user_option_key: Address,
    pub user: Address,
    pub now: int,
}

impl View for Withdraw {
    type V = WithdrawView;

    open spec fn view(&self) -> WithdrawView {
        WithdrawView {
            prediction: self.prediction@,
            prediction_key: self.prediction_key,
            pool_balance: self.pool_balance as nat,
            user_option: self.user_option@,
            user_option_key: self.user_option_key,
            user: self.user,
            now: self.now as int,
        }
    }
}

} // verus!
