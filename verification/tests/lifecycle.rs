use crystalball::{
    claim, create, predict, reveal_result, update_config, withdraw, Address, Claim, Config,
    CreatePrediction, ErrorCode, OptionData, Prediction, Reveal, UpdateConfig, UserOption,
    UserPrediction, Withdraw,
};

const ADMIN: u8 = 1;
const CREATOR: u8 = 2;
const TREASURY: u8 = 3;
const MARKET: u8 = 100;

fn key(byte: u8) -> Address {
    Address { bytes: [byte; 32] }
}

fn configured() -> Config {
    let mut ctx = UpdateConfig { config: Config::default(), admin: key(ADMIN) };
    update_config(&mut ctx, 2, key(TREASURY), false).unwrap();
    ctx.config
}

fn created(config: Config) -> Prediction {
    let mut ctx = CreatePrediction {
        prediction: Prediction::default(),
        prediction_key: key(MARKET),
        creator: key(CREATOR),
        config,
        now: 1000,
    };
    let options = vec![
        OptionData { label: "red".to_string(), amount: 0 },
        OptionData { label: "blue".to_string(), amount: 0 },
    ];
    create(
        &mut ctx,
        9,
        "Which side wins?".to_string(),
        "The final on Sunday".to_string(),
        "https://example.org/final.png".to_string(),
        2000,
        3000,
        5,
        options,
    )
    .unwrap();
    ctx.prediction
}

fn stake(prediction: Prediction, user: u8, option_index: u8, amount: u64) -> (Prediction, UserOption) {
    let mut ctx = UserPrediction {
        prediction,
        prediction_key: key(MARKET),
        user_option: UserOption::default(),
        user_option_key: key(user + 100),
        user: key(user),
        now: 1500,
    };
    let event = predict(&mut ctx, option_index, amount).unwrap();
    assert_eq!(event.amount, amount);
    (ctx.prediction, ctx.user_option)
}

#[test]
fn market_is_settled_by_reveal_and_claims() {
    let config = configured();
    let prediction = created(config);
    let (prediction, ann) = stake(prediction, 10, 0, 100);
    let (prediction, bob) = stake(prediction, 11, 0, 300);
    let (prediction, eve) = stake(prediction, 12, 1, 600);
    assert_eq!(prediction.total_pool, 1000);
    assert_eq!(prediction.participants, 3);
    let mut balance: u64 = 1000;

    let mut ctx = Reveal {
        prediction,
        prediction_key: key(MARKET),
        pool_balance: balance,
        config,
        creator: key(CREATOR),
        fee_receiver: key(TREASURY),
        now: 2500,
    };
    let event = reveal_result(&mut ctx, 0).unwrap();
    assert_eq!(event.creator_amount, 50);
    assert_eq!(event.protocol_amount, 20);
    balance = ctx.pool_balance;
    assert_eq!(balance, 930);
    let prediction = ctx.prediction;

    let mut rewards: Vec<u64> = Vec::new();
    for record in [ann, bob] {
        let mut ctx = Claim {
            prediction: prediction.clone(),
            prediction_key: key(MARKET),
            pool_balance: balance,
            user_option: record,
            user_option_key: key(200),
            user: record.user,
        };
        let event = claim(&mut ctx).unwrap();
        assert_eq!(event.principal, record.amount);
        assert_eq!(event.user, record.user);
        assert!(ctx.user_option.claimed);
        rewards.push(event.reward);
        balance = ctx.pool_balance;
    }
    assert_eq!(rewards, vec![232, 697]);
    assert_eq!(balance, 1);

    let mut ctx = Claim {
        prediction: prediction.clone(),
        prediction_key: key(MARKET),
        pool_balance: balance,
        user_option: eve,
        user_option_key: key(200),
        user: eve.user,
    };
    assert_eq!(claim(&mut ctx), Err(ErrorCode::WrongOption));

    let mut ctx = Withdraw {
        prediction,
        prediction_key: key(MARKET),
        pool_balance: balance,
        user_option: eve,
        user_option_key: key(200),
        user: eve.user,
        now: 3001,
    };
    assert_eq!(withdraw(&mut ctx), Err(ErrorCode::PredictionAlreadyRevealed));
}

#[test]
fn market_without_reveal_is_refunded() {
    let config = configured();
    let prediction = created(config);
    let (prediction, ann) = stake(prediction, 10, 0, 100);
    let (prediction, eve) = stake(prediction, 12, 1, 600);
    let mut balance: u64 = 700;

    let mut late = Reveal {
        prediction: prediction.clone(),
        prediction_key: key(MARKET),
        pool_balance: balance,
        config,
        creator: key(CREATOR),
        fee_receiver: key(TREASURY),
        now: 3001,
    };
    assert_eq!(reveal_result(&mut late, 0), Err(ErrorCode::RevealDeadlinePassed));

    for record in [eve, ann] {
        let mut ctx = Withdraw {
            prediction: prediction.clone(),
            prediction_key: key(MARKET),
            pool_balance: balance,
            user_option: record,
            user_option_key: key(200),
            user: record.user,
            now: 3001,
        };
        let event = withdraw(&mut ctx).unwrap();
        assert_eq!(event.amount, record.amount);
        balance = ctx.pool_balance;
    }
    assert_eq!(balance, 0);
}

#[test]
fn paused_configuration_stops_creation_only() {
    let config = configured();
    let prediction = created(config);
    let mut admin = UpdateConfig { config, admin: key(ADMIN) };
    update_config(&mut admin, 2, key(TREASURY), true).unwrap();
    let mut ctx = CreatePrediction {
        prediction: Prediction::default(),
        prediction_key: key(MARKET + 1),
        creator: key(CREATOR),
        config: admin.config,
        now: 1000,
    };
    let refused = create(
        &mut ctx,
        10,
        "title".to_string(),
        "description".to_string(),
        "image".to_string(),
        2000,
        3000,
        5,
        Vec::new(),
    );
    assert_eq!(refused.unwrap_err(), ErrorCode::ProgramIsPaused);
    let (prediction, _) = stake(prediction, 10, 0, 100);
    assert_eq!(prediction.total_pool, 100);
}
