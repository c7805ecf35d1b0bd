use crystalball::math::{percent_of_amount, reward_pool_amount, reward_share_amount};
use crystalball::{
    claim, reveal_result, withdraw, Address, Claim, Config, ErrorCode, ErrorKind, OptionData,
    Prediction, Reveal, UserOption, Withdraw,
};

fn party(byte: u8) -> Address {
    Address { bytes: [byte; 32] }
}

const CREATOR: u8 = 7;
const RECEIVER: u8 = 9;

fn config() -> Config {
    Config { admin: party(1), protocol_fee: 2, fee_receiver: party(RECEIVER), is_paused: false }
}

/// A market with a pool of 1000, 400 of it on the first option.
fn staked_market() -> Prediction {
    Prediction {
        title: "title".to_string(),
        description: "description".to_string(),
        image_url: "image".to_string(),
        created_time: 1000,
        ended_time: 2000,
        reveal_deadline: 3000,
        revealed_time: 0,
        protocol_fee: 2,
        creator_fee: 5,
        creator: party(CREATOR),
        result_index: 0,
        participants: 4,
        total_pool: 1000,
        seed: 1,
        options: vec![
            OptionData { label: "yes".to_string(), amount: 400 },
            OptionData { label: "no".to_string(), amount: 600 },
        ],
    }
}

fn revealed_market() -> Prediction {
    let mut prediction = staked_market();
    prediction.revealed_time = 2500;
    prediction
}

fn revealing(prediction: Prediction, pool_balance: u64, now: i64) -> Reveal {
    Reveal {
        prediction,
        prediction_key: party(50),
        pool_balance,
        config: config(),
        creator: party(CREATOR),
        fee_receiver: party(RECEIVER),
        now,
    }
}

fn stake(user: u8, option_index: u8, amount: u64) -> UserOption {
    UserOption { user: party(user), option_index, amount, claimed: false }
}

fn claiming(prediction: Prediction, pool_balance: u64, user_option: UserOption) -> Claim {
    Claim {
        prediction,
        prediction_key: party(50),
        pool_balance,
        user_option,
        user_option_key: party(60),
        user: user_option.user,
    }
}

fn withdrawing(prediction: Prediction, pool_balance: u64, user_option: UserOption, now: i64) -> Withdraw {
    Withdraw {
        prediction,
        prediction_key: party(50),
        pool_balance,
        user_option,
        user_option_key: party(60),
        user: user_option.user,
        now,
    }
}

#[test]
fn percent_is_rounded_down() {
    assert_eq!(percent_of_amount(1000, 5), Some(50));
    assert_eq!(percent_of_amount(1000, 2), Some(20));
    assert_eq!(percent_of_amount(999, 5), Some(49));
    assert_eq!(percent_of_amount(19, 5), Some(0));
    assert_eq!(percent_of_amount(0, 100), Some(0));
    assert_eq!(percent_of_amount(1000, 0), Some(0));
    assert_eq!(percent_of_amount(1000, 200), Some(2000));
}

#[test]
fn percent_of_a_large_amount_is_exact() {
    assert_eq!(percent_of_amount(u64::MAX, 100), Some(u64::MAX));
    assert_eq!(percent_of_amount(u64::MAX, 50), Some(u64::MAX / 2));
    assert_eq!(percent_of_amount(u64::MAX, 1), Some(184467440737095516));
    assert_eq!(percent_of_amount(u64::MAX, 101), None);
    assert_eq!(percent_of_amount(u64::MAX, 255), None);
}

#[test]
fn reward_pool_is_what_the_fees_leave() {
    assert_eq!(reward_pool_amount(1000, 5, 2), Some(930));
    assert_eq!(reward_pool_amount(1000, 0, 0), Some(1000));
    assert_eq!(reward_pool_amount(1000, 100, 0), Some(0));
    assert_eq!(reward_pool_amount(1000, 60, 40), Some(0));
    assert_eq!(reward_pool_amount(999, 5, 2), Some(929));
    assert_eq!(reward_pool_amount(u64::MAX, 0, 0), Some(u64::MAX));
    assert_eq!(reward_pool_amount(1000, 60, 41), None);
    assert_eq!(reward_pool_amount(1000, 255, 255), None);
}

#[test]
fn reward_share_is_proportional_and_rounded_down() {
    assert_eq!(reward_share_amount(100, 930, 400), Some(232));
    assert_eq!(reward_share_amount(400, 930, 400), Some(930));
    assert_eq!(reward_share_amount(0, 930, 400), Some(0));
    assert_eq!(reward_share_amount(1, 930, 1000), Some(0));
    assert_eq!(reward_share_amount(100, 930, 0), None);
    assert_eq!(reward_share_amount(u64::MAX, u64::MAX, u64::MAX), Some(u64::MAX));
    assert_eq!(reward_share_amount(u64::MAX, u64::MAX, 1), None);
}

#[test]
fn reveal_records_the_outcome_and_takes_the_fees() {
    let mut ctx = revealing(staked_market(), 1500, 2500);
    let event = reveal_result(&mut ctx, 1).unwrap();
    assert_eq!(ctx.prediction.result_index, 1);
    assert_eq!(ctx.prediction.revealed_time, 2500);
    assert_eq!(ctx.pool_balance, 1430);
    assert_eq!(event.pred_key, party(50));
    assert_eq!(event.result_index, 1);
    assert_eq!(event.creator_amount, 50);
    assert_eq!(event.protocol_amount, 20);
    let mut expected = staked_market();
    expected.result_index = 1;
    expected.revealed_time = 2500;
    assert_eq!(ctx.prediction, expected);
    assert_eq!(ctx.config, config());
}

#[test]
fn reveal_window_is_closed_on_both_ends() {
    let mut ctx = revealing(staked_market(), 1500, 1999);
    let before = ctx.clone();
    let error = reveal_result(&mut ctx, 0).unwrap_err();
    assert_eq!(error, ErrorCode::PredictionStillOpen);
    assert_eq!(error.kind(), ErrorKind::InvalidTiming);
    assert_eq!(ctx, before);
    let mut ctx = revealing(staked_market(), 1500, 3001);
    let before = ctx.clone();
    let error = reveal_result(&mut ctx, 0).unwrap_err();
    assert_eq!(error, ErrorCode::RevealDeadlinePassed);
    assert_eq!(error.kind(), ErrorKind::InvalidTiming);
    assert_eq!(ctx, before);
    assert!(reveal_result(&mut revealing(staked_market(), 1500, 2000), 0).is_ok());
    assert!(reveal_result(&mut revealing(staked_market(), 1500, 3000), 0).is_ok());
}

#[test]
fn second_reveal_is_refused() {
    let mut ctx = revealing(staked_market(), 1500, 2500);
    reveal_result(&mut ctx, 1).unwrap();
    ctx.now = 2600;
    let before = ctx.clone();
    let error = reveal_result(&mut ctx, 0).unwrap_err();
    assert_eq!(error, ErrorCode::PredictionEnded);
    assert_eq!(error.kind(), ErrorKind::AlreadySettled);
    assert_eq!(ctx, before);
    assert_eq!(ctx.prediction.result_index, 1);
    assert_eq!(ctx.prediction.revealed_time, 2500);
    assert_eq!(ctx.pool_balance, 1430);
    ctx.now = 3001;
    assert_eq!(reveal_result(&mut ctx, 0), Err(ErrorCode::RevealDeadlinePassed));
    assert_eq!(ctx.prediction.result_index, 1);
}

#[test]
fn reveal_at_time_zero_leaves_the_market_open_to_reveal() {
    let mut prediction = staked_market();
    prediction.created_time = -100;
    prediction.ended_time = -10;
    prediction.reveal_deadline = 10;
    let mut ctx = revealing(prediction, 1500, 0);
    let event = reveal_result(&mut ctx, 1).unwrap();
    assert_eq!(event.creator_amount, 50);
    assert_eq!(ctx.prediction.result_index, 1);
    assert_eq!(ctx.prediction.revealed_time, 0);
    ctx.now = 1;
    assert!(reveal_result(&mut ctx, 0).is_ok());
    assert_eq!(ctx.prediction.revealed_time, 1);
    assert_eq!(ctx.prediction.result_index, 0);
    ctx.now = 2;
    assert_eq!(reveal_result(&mut ctx, 1), Err(ErrorCode::PredictionEnded));
}

#[test]
fn reveal_is_reserved_to_the_creator() {
    let mut ctx = revealing(staked_market(), 1500, 2500);
    ctx.creator = party(8);
    let before = ctx.clone();
    let error = reveal_result(&mut ctx, 0).unwrap_err();
    assert_eq!(error, ErrorCode::InvalidCreator);
    assert_eq!(error.kind(), ErrorKind::Unauthorized);
    assert_eq!(ctx, before);
}

#[test]
fn reveal_needs_the_configured_fee_receiver() {
    let mut ctx = revealing(staked_market(), 1500, 2500);
    ctx.fee_receiver = party(8);
    let before = ctx.clone();
    let error = reveal_result(&mut ctx, 0).unwrap_err();
    assert_eq!(error, ErrorCode::InvalidFeeReceiver);
    assert_eq!(error.kind(), ErrorKind::Unauthorized);
    assert_eq!(ctx, before);
}

#[test]
fn reveal_of_a_missing_option_is_refused() {
    let mut ctx = revealing(staked_market(), 1500, 2500);
    let before = ctx.clone();
    assert_eq!(reveal_result(&mut ctx, 2), Err(ErrorCode::InvalidOption));
    assert_eq!(ctx, before);
}

#[test]
fn reveal_needs_a_balance_that_covers_the_fees() {
    let mut ctx = revealing(staked_market(), 69, 2500);
    let before = ctx.clone();
    let error = reveal_result(&mut ctx, 0).unwrap_err();
    assert_eq!(error, ErrorCode::InsufficientFunds);
    assert_eq!(error.kind(), ErrorKind::InsufficientFunds);
    assert_eq!(ctx, before);
    let mut ctx = revealing(staked_market(), 70, 2500);
    assert!(reveal_result(&mut ctx, 0).is_ok());
    assert_eq!(ctx.pool_balance, 0);
}

#[test]
fn reveal_with_fees_beyond_any_balance_is_refused() {
    let mut prediction = staked_market();
    prediction.total_pool = u64::MAX;
    prediction.creator_fee = 255;
    let mut ctx = revealing(prediction, u64::MAX, 2500);
    assert_eq!(reveal_result(&mut ctx, 0), Err(ErrorCode::InsufficientFunds));
    let mut prediction = staked_market();
    prediction.total_pool = u64::MAX;
    prediction.creator_fee = 60;
    prediction.protocol_fee = 60;
    let mut ctx = revealing(prediction, u64::MAX, 2500);
    assert_eq!(reveal_result(&mut ctx, 0), Err(ErrorCode::InsufficientFunds));
}

#[test]
fn first_failing_check_of_reveal_wins() {
    let mut prediction = revealed_market();
    prediction.creator = party(8);
    let mut ctx = revealing(prediction, 0, 1999);
    ctx.fee_receiver = party(8);
    assert_eq!(reveal_result(&mut ctx, 9), Err(ErrorCode::PredictionStillOpen));
    ctx.now = 3001;
    assert_eq!(reveal_result(&mut ctx, 9), Err(ErrorCode::RevealDeadlinePassed));
    ctx.now = 2500;
    assert_eq!(reveal_result(&mut ctx, 9), Err(ErrorCode::PredictionEnded));
    ctx.prediction.revealed_time = 0;
    assert_eq!(reveal_result(&mut ctx, 9), Err(ErrorCode::InvalidCreator));
    ctx.creator = party(8);
    assert_eq!(reveal_result(&mut ctx, 9), Err(ErrorCode::InvalidFeeReceiver));
    ctx.fee_receiver = party(RECEIVER);
    assert_eq!(reveal_result(&mut ctx, 9), Err(ErrorCode::InvalidOption));
    assert_eq!(reveal_result(&mut ctx, 1), Err(ErrorCode::InsufficientFunds));
}

#[test]
fn claim_pays_the_exact_share() {
    let mut ctx = claiming(revealed_market(), 930, stake(3, 0, 100));
    let event = claim(&mut ctx).unwrap();
    assert_eq!(event.reward, 232);
    assert_eq!(event.principal, 100);
    assert_eq!(event.pred_key, party(50));
    assert_eq!(event.up_key, party(60));
    assert_eq!(event.user, party(3));
    assert!(ctx.user_option.claimed);
    assert_eq!(ctx.user_option.amount, 100);
    assert_eq!(ctx.pool_balance, 698);
    assert_eq!(ctx.prediction, revealed_market());
}

#[test]
fn rewards_of_all_winners_fit_in_the_reward_pool() {
    let stakes: [u64; 3] = [100, 150, 150];
    let mut balance: u64 = 930;
    let mut paid: u64 = 0;
    for (user, amount) in stakes.iter().enumerate() {
        let mut ctx = claiming(revealed_market(), balance, stake(user as u8 + 1, 0, *amount));
        let event = claim(&mut ctx).unwrap();
        paid += event.reward;
        balance = ctx.pool_balance;
    }
    assert_eq!(paid, 232 + 348 + 348);
    assert!(paid <= 930);
    assert!(930 - paid <= 2);
    assert_eq!(balance, 930 - paid);
}

#[test]
fn claim_before_reveal_is_refused() {
    let mut ctx = claiming(staked_market(), 930, stake(3, 0, 100));
    let before = ctx.clone();
    let error = claim(&mut ctx).unwrap_err();
    assert_eq!(error, ErrorCode::ResultNotRevealed);
    assert_eq!(error.kind(), ErrorKind::NotYetSettled);
    assert_eq!(ctx, before);
}

#[test]
fn claim_on_a_losing_option_is_refused() {
    let mut ctx = claiming(revealed_market(), 930, stake(3, 1, 100));
    let before = ctx.clone();
    let error = claim(&mut ctx).unwrap_err();
    assert_eq!(error, ErrorCode::WrongOption);
    assert_eq!(error.kind(), ErrorKind::AlreadySettled);
    assert_eq!(ctx, before);
}

#[test]
fn second_claim_is_refused_and_pays_nothing() {
    let mut ctx = claiming(revealed_market(), 930, stake(3, 0, 100));
    claim(&mut ctx).unwrap();
    let before = ctx.clone();
    let error = claim(&mut ctx).unwrap_err();
    assert_eq!(error, ErrorCode::AlreadyClaimed);
    assert_eq!(error.kind(), ErrorKind::AlreadySettled);
    assert_eq!(ctx, before);
    assert_eq!(ctx.pool_balance, 698);
}

#[test]
fn claim_with_a_winner_that_is_no_option_is_refused() {
    let mut prediction = revealed_market();
    prediction.result_index = 2;
    let mut ctx = claiming(prediction, 930, stake(3, 2, 100));
    let before = ctx.clone();
    assert_eq!(claim(&mut ctx), Err(ErrorCode::InvalidOption));
    assert_eq!(ctx, before);
}

#[test]
fn claim_with_fees_above_the_whole_is_refused() {
    let mut prediction = revealed_market();
    prediction.creator_fee = 60;
    prediction.protocol_fee = 41;
    let mut ctx = claiming(prediction, 930, stake(3, 0, 100));
    let before = ctx.clone();
    assert_eq!(claim(&mut ctx), Err(ErrorCode::MathOverflow));
    assert_eq!(ctx, before);
    ctx.prediction.protocol_fee = 40;
    let event = claim(&mut ctx).unwrap();
    assert_eq!(event.reward, 0);
}

#[test]
fn claim_on_a_winning_option_without_stake_is_refused() {
    let mut prediction = revealed_market();
    prediction.options[0].amount = 0;
    prediction.options[1].amount = 1000;
    let mut ctx = claiming(prediction, 930, stake(3, 0, 0));
    let before = ctx.clone();
    assert_eq!(claim(&mut ctx), Err(ErrorCode::MathOverflow));
    assert_eq!(ctx, before);
}

#[test]
fn claim_needs_a_balance_that_covers_the_reward() {
    let mut ctx = claiming(revealed_market(), 231, stake(3, 0, 100));
    let before = ctx.clone();
    assert_eq!(claim(&mut ctx), Err(ErrorCode::InsufficientFunds));
    assert_eq!(ctx, before);
    ctx.pool_balance = 232;
    assert!(claim(&mut ctx).is_ok());
    assert_eq!(ctx.pool_balance, 0);
}

#[test]
fn claim_of_a_reward_beyond_any_balance_is_refused() {
    let mut prediction = revealed_market();
    prediction.total_pool = u64::MAX;
    prediction.creator_fee = 0;
    prediction.protocol_fee = 0;
    prediction.options[0].amount = 1;
    let mut ctx = claiming(prediction, u64::MAX, stake(3, 0, 2));
    assert_eq!(claim(&mut ctx), Err(ErrorCode::InsufficientFunds));
}

#[test]
fn claim_on_a_large_pool_does_not_overflow() {
    let mut prediction = revealed_market();
    prediction.total_pool = u64::MAX;
    prediction.creator_fee = 0;
    prediction.protocol_fee = 0;
    prediction.options[0].amount = u64::MAX;
    prediction.options[1].amount = 0;
    let mut ctx = claiming(prediction, u64::MAX, stake(3, 0, u64::MAX));
    let event = claim(&mut ctx).unwrap();
    assert_eq!(event.reward, u64::MAX);
    assert_eq!(ctx.pool_balance, 0);
}

#[test]
fn withdraw_refunds_the_whole_stake() {
    let mut ctx = withdrawing(staked_market(), 1000, stake(3, 1, 600), 3001);
    let event = withdraw(&mut ctx).unwrap();
    assert_eq!(event.amount, 600);
    assert_eq!(event.pred_key, party(50));
    assert_eq!(event.up_key, party(60));
    assert_eq!(event.user, party(3));
    assert!(ctx.user_option.claimed);
    assert_eq!(ctx.user_option.amount, 600);
    assert_eq!(ctx.pool_balance, 400);
    assert_eq!(ctx.prediction, staked_market());
    let mut other = withdrawing(staked_market(), 400, stake(4, 0, 400), 5000);
    assert_eq!(withdraw(&mut other).unwrap().amount, 400);
    assert_eq!(other.pool_balance, 0);
}

#[test]
fn withdraw_before_the_deadline_has_passed_is_refused() {
    let mut ctx = withdrawing(staked_market(), 1000, stake(3, 1, 600), 3000);
    let before = ctx.clone();
    let error = withdraw(&mut ctx).unwrap_err();
    assert_eq!(error, ErrorCode::PredictionNotExpired);
    assert_eq!(error.kind(), ErrorKind::NotYetSettled);
    assert_eq!(ctx, before);
}

#[test]
fn withdraw_after_reveal_is_refused() {
    let mut ctx = withdrawing(revealed_market(), 1000, stake(3, 1, 600), 3001);
    let before = ctx.clone();
    let error = withdraw(&mut ctx).unwrap_err();
    assert_eq!(error, ErrorCode::PredictionAlreadyRevealed);
    assert_eq!(error.kind(), ErrorKind::AlreadySettled);
    assert_eq!(ctx, before);
    ctx.now = 2600;
    assert_eq!(withdraw(&mut ctx), Err(ErrorCode::PredictionNotExpired));
}

#[test]
fn claim_past_the_deadline_without_reveal_is_refused() {
    let mut ctx = claiming(staked_market(), 1000, stake(3, 0, 100));
    assert_eq!(claim(&mut ctx), Err(ErrorCode::ResultNotRevealed));
    let mut refund = withdrawing(staked_market(), 1000, stake(3, 0, 100), 3001);
    assert!(withdraw(&mut refund).is_ok());
}

#[test]
fn second_withdraw_is_refused_and_pays_nothing() {
    let mut ctx = withdrawing(staked_market(), 1000, stake(3, 1, 600), 3001);
    withdraw(&mut ctx).unwrap();
    let before = ctx.clone();
    let error = withdraw(&mut ctx).unwrap_err();
    assert_eq!(error, ErrorCode::AlreadyClaimed);
    assert_eq!(ctx, before);
    assert_eq!(ctx.pool_balance, 400);
}

#[test]
fn withdraw_needs_a_balance_that_covers_the_stake() {
    let mut ctx = withdrawing(staked_market(), 599, stake(3, 1, 600), 3001);
    let before = ctx.clone();
    assert_eq!(withdraw(&mut ctx), Err(ErrorCode::InsufficientFunds));
    assert_eq!(ctx, before);
}

#[test]
fn paid_out_stake_is_neither_claimed_nor_withdrawn() {
    let mut record = stake(3, 0, 100);
    record.claimed = true;
    let mut ctx = claiming(revealed_market(), 930, record);
    assert_eq!(claim(&mut ctx), Err(ErrorCode::AlreadyClaimed));
    let mut ctx = withdrawing(staked_market(), 1000, record, 3001);
    assert_eq!(withdraw(&mut ctx), Err(ErrorCode::AlreadyClaimed));
}

#[test]
fn every_failure_has_its_class() {
    let classes = [
        (ErrorCode::ProgramIsPaused, ErrorKind::StateConflict),
        (ErrorCode::PredictionClosed, ErrorKind::InvalidTiming),
        (ErrorCode::PredictionStillOpen, ErrorKind::InvalidTiming),
        (ErrorCode::PredictionEnded, ErrorKind::AlreadySettled),
        (ErrorCode::PredictionNotExpired, ErrorKind::NotYetSettled),
        (ErrorCode::PredictionAlreadyRevealed, ErrorKind::AlreadySettled),
        (ErrorCode::EndedTimeInvalid, ErrorKind::InvalidTiming),
        (ErrorCode::RevealDeadlineInvalid, ErrorKind::InvalidTiming),
        (ErrorCode::ResultNotRevealed, ErrorKind::NotYetSettled),
        (ErrorCode::RevealDeadlinePassed, ErrorKind::InvalidTiming),
        (ErrorCode::InvalidOption, ErrorKind::InvalidInput),
        (ErrorCode::WrongOption, ErrorKind::AlreadySettled),
        (ErrorCode::AlreadyClaimed, ErrorKind::AlreadySettled),
        (ErrorCode::MathOverflow, ErrorKind::InvalidInput),
        (ErrorCode::InsufficientFunds, ErrorKind::InsufficientFunds),
        (ErrorCode::TitleTooLong, ErrorKind::InvalidInput),
        (ErrorCode::DescriptionTooLong, ErrorKind::InvalidInput),
        (ErrorCode::OptionLabelTooLong, ErrorKind::InvalidInput),
        (ErrorCode::TooManyOptions, ErrorKind::InvalidInput),
        (ErrorCode::InvalidOwner, ErrorKind::Unauthorized),
        (ErrorCode::InvalidCreator, ErrorKind::Unauthorized),
        (ErrorCode::InvalidFeeReceiver, ErrorKind::Unauthorized),
    ];
    for (code, class) in classes {
        assert_eq!(code.kind(), class);
    }
}
