//! The failures an operation can report, and the classes they fall into.

use vstd::prelude::*;

verus! {

/// Why an operation was refused. A refused operation changes nothing.
#[derive(Clone, Copy, Debug, PartialEq, Eq, Structural)]
pub enum ErrorCode {
    /// Markets cannot be created while the configuration is paused.
    ProgramIsPaused,
    /// Staking was attempted after the market's end time.
    PredictionClosed,
    /// A reveal was attempted before the market's end time.
    PredictionStillOpen,
    /// The market's outcome has been revealed before.
    PredictionEnded,
    /// A withdrawal was attempted before the reveal deadline had passed.
    PredictionNotExpired,
    /// A withdrawal was attempted on a market whose outcome is revealed.
    PredictionAlreadyRevealed,
    /// The end time is not more than two units after the time of creation.
    EndedTimeInvalid,
    /// The reveal deadline is not after the end time.
    RevealDeadlineInvalid,
    /// A claim was attempted before the outcome was revealed.
    ResultNotRevealed,
    /// A reveal was attempted after the reveal deadline.
    RevealDeadlinePassed,
    /// The option index is not one of the market's options.
    InvalidOption,
    /// The participation backs another option than the one that won.
    WrongOption,
    /// The participation has been paid out before.
    AlreadyClaimed,
    /// An amount has no value in the width it is kept in.
    MathOverflow,
    /// The pooled balance does not cover what is owed.
    InsufficientFunds,
    /// The title is longer than 50 bytes.
    TitleTooLong,
    /// The description is longer than 500 bytes.
    DescriptionTooLong,
    /// An option label is longer than 10 bytes.
    OptionLabelTooLong,
    /// There are more than 10 options.
    TooManyOptions,
    /// The caller is not the administrator.
    InvalidOwner,
    /// The caller is not the market's creator.
    InvalidCreator,
    /// The fee receiver is not the configured one.
    InvalidFeeReceiver,
}

/// The classes of failure.
#[derive(Clone, Copy, Debug, PartialEq, Eq, Structural)]
pub enum ErrorKind {
    /// The caller is not the party that the operation is reserved for.
    Unauthorized,
    /// An argument is outside what the operation accepts.
    InvalidInput,
    /// A deadline is out of order, or the operation came outside its window.
    InvalidTiming,
    /// The market or the participation has been settled before.
    AlreadySettled,
    /// The pooled balance does not cover what is owed.
    InsufficientFunds,
    /// The market is not settled yet.
    NotYetSettled,
    /// The operation conflicts with the state of the records it addresses.
    StateConflict,
}

impl ErrorCode {
    /// The class of each failure.
    pub open spec fn spec_kind(self) -> ErrorKind {
        match self {
            ErrorCode::InvalidOwner | ErrorCode::InvalidCreator | ErrorCode::InvalidFeeReceiver =>
                ErrorKind::Unauthorized,
            ErrorCode::TitleTooLong
            | ErrorCode::DescriptionTooLong
            | ErrorCode::TooManyOptions
            | ErrorCode::OptionLabelTooLong
            | ErrorCode::InvalidOption
            | ErrorCode::MathOverflow => ErrorKind::InvalidInput,
            ErrorCode::EndedTimeInvalid
            | ErrorCode::RevealDeadlineInvalid
            | ErrorCode::PredictionClosed
            | ErrorCode::PredictionStillOpen
            | ErrorCode::RevealDeadlinePassed => ErrorKind::InvalidTiming,
            ErrorCode::PredictionEnded
            | ErrorCode::PredictionAlreadyRevealed
            | ErrorCode::AlreadyClaimed
            | ErrorCode::WrongOption => ErrorKind::AlreadySettled,
            ErrorCode::InsufficientFunds => ErrorKind::InsufficientFunds,
            ErrorCode::ResultNotRevealed | ErrorCode::PredictionNotExpired =>
                ErrorKind::NotYetSettled,
            ErrorCode::ProgramIsPaused => ErrorKind::StateConflict,
        }
    }

    /// The class this failure falls into.
    #[verifier::when_used_as_spec(spec_kind)]
    pub fn kind(self) -> (k: ErrorKind)
        ensures
            k == self.spec_kind(),
    {
        match self {
            ErrorCode::InvalidOwner | ErrorCode::InvalidCreator | ErrorCode::InvalidFeeReceiver =>
                ErrorKind::Unauthorized,
            ErrorCode::TitleTooLong
            | ErrorCode::DescriptionTooLong
            | ErrorCode::TooManyOptions
            | ErrorCode::OptionLabelTooLong
            | ErrorCode::InvalidOption
            | ErrorCode::MathOverflow => ErrorKind::InvalidInput,
            ErrorCode::EndedTimeInvalid
            | ErrorCode::RevealDeadlineInvalid
            | ErrorCode::PredictionClosed
            | ErrorCode::PredictionStillOpen
            | ErrorCode::RevealDeadlinePassed => ErrorKind::InvalidTiming,
            ErrorCode::PredictionEnded
            | ErrorCode::PredictionAlreadyRevealed
            | ErrorCode::AlreadyClaimed
            | ErrorCode::WrongOption => ErrorKind::AlreadySettled,
            ErrorCode::InsufficientFunds => ErrorKind::InsufficientFunds,
            ErrorCode::ResultNotRevealed | ErrorCode::PredictionNotExpired =>
                ErrorKind::NotYetSettled,
            ErrorCode::ProgramIsPaused => ErrorKind::StateConflict,
        }
    }
}

} // verus!
