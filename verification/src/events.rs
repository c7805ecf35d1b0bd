//! The notifications. An operation that succeeds returns one; it tells an
//! observer what happened and tells the host what it has to move.

use crate::address::Address;
use crate::state::{option_views, OptionData, OptionView};
use vstd::prelude::*;

verus! {

/// The configuration was written.
#[derive(Clone, Copy, Debug, PartialEq, Eq)]
pub struct ConfigUpdated {
    pub admin: Address,
    pub protocol_fee: u8,
    pub fee_receiver: Address,
    pub is_paused: bool,
}

/// A market was created, with these terms.
#[derive(Clone, Debug, PartialEq, Eq)]
pub struct PredictionCreated {
    pub pred_key: Address,
    pub creator: Address,
    pub title: String,
    pub description: String,
    pub image_url: String,
    pub created_time: i64,
    pub ended_time: i64,
    pub reveal_deadline: i64,
    pub creator_fee: u8,
    pub protocol_fee: u8,
    pub options: Vec<OptionData>,
}

/// The value of a [`PredictionCreated`].
pub struct PredictionCreatedView {
    pub pred_key: Address,
    pub creator: Address,
    pub title: Seq<char>,
    pub description: Seq<char>,
    pub image_url: Seq<char>,
    pub created_time: int,
    pub ended_time: int,
    pub reveal_deadline: int,
    pub creator_fee: nat,
    pub protocol_fee: nat,
    pub options: Seq<OptionView>,
}

impl View for PredictionCreated {
    type V = PredictionCreatedView;

    open spec fn view(&self) -> PredictionCreatedView {
        PredictionCreatedView {
            pred_key: self.pred_key,
            creator: self.creator,
            title: self.title@,
            description: self.description@,
            image_url: self.image_url@,
            created_time: self.created_time as int,
            ended_time: self.ended_time as int,
            reveal_deadline: self.reveal_deadline as int,
            creator_fee: self.creator_fee as nat,
            protocol_fee: self.protocol_fee as nat,
            options: option_views(self.options@),
        }
    }
}

/// A stake was placed. The host moves `amount` from the user to the market.
#[derive(Clone, Copy, Debug, PartialEq, Eq)]
pub struct UserPredicted {
    pub pred_key: Address,
    /// The market's pool after the stake.
    pub pred_total_pool: u64,
    /// The market's count of participations after the stake.
    pub pred_participants: u32,
    pub up_key: Address,
    pub user: Address,
    pub option_index: u8,
    pub amount: u64,
}

/// The outcome was revealed. The host moves `creator_amount` from the market
/// to the creator and `protocol_amount` from the market to the fee receiver.
#[derive(Clone, Copy, Debug, PartialEq, Eq)]
pub struct PredictionRevealed {
    pub pred_key: Address,
    pub result_index: u8,
    pub creator_amount: u64,
    pub protocol_amount: u64,
}

/// A winning stake was paid out. The host moves `reward` from the market to
/// the user.
#[derive(Clone, Copy, Debug, PartialEq, Eq)]
pub struct RewardClaimed {
    pub pred_key: Address,
    pub up_key: Address,
    pub user: Address,
    /// What the user had staked.
    pub principal: u64,
    pub reward: u64,
}

/// A stake was refunded. The host moves `amount` from the market to the user.
#[derive(Clone, Copy, Debug, PartialEq, Eq)]
pub struct UserWithdrawn {
    pub pred_key: Address,
    pub up_key: Address,
    pub user: Address,
    pub amount: u64,
}

} // verus!
