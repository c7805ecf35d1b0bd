//! Settlement engine for pooled-stake prediction markets.
//!
//! Participants lock value against one of several mutually exclusive outcomes.
//! Once the creator reveals the outcome, the pool, less a creator fee and a
//! protocol fee, is split among the winning stakes in proportion to their size.
//! When the creator misses the reveal deadline every stake can be withdrawn in
//! full.
//!
//! Every operation is a guarded transition on records that the host loads and
//! stores: it either fails, leaving everything as it was, or updates the records
//! and returns the notification that describes what the host has to pay out.

pub mod accounts;
pub mod address;
pub mod book;
pub mod claim;
pub mod configure;
pub mod create;
pub mod error;
pub mod events;
pub mod laws;
pub mod math;
pub mod predict;
pub mod revealing;
pub mod state;
pub mod withdraw;

pub use accounts::{
    Claim, ClaimView, CreatePrediction, CreatePredictionView, Reveal, RevealView, UpdateConfig,
    UserPrediction, UserPredictionView, Withdraw, WithdrawView,
};
pub use address::Address;
pub use claim::claim;
pub use configure::update_config;
pub use create::create;
pub use error::{ErrorCode, ErrorKind};
pub use events::{
    ConfigUpdated, PredictionCreated, PredictionCreatedView, PredictionRevealed, RewardClaimed,
    UserPredicted, UserWithdrawn,
};
pub use predict::predict;
pub use revealing::reveal_result;
pub use state::{
    Config, OptionData, OptionView, Prediction, PredictionView, UserOption, UserOptionView,
};
pub use withdraw::withdraw;
