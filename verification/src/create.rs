//! Creating a market.

use crate::accounts::{CreatePrediction, CreatePredictionView};
use crate::error::ErrorCode;
use crate::events::{PredictionCreated, PredictionCreatedView};
use crate::state::{
    byte_len, labels_within_limit, lemma_unstaked_total, option_views, text_len, unstaked,
    OptionData, OptionView, Prediction, PredictionView, END_MARGIN, MAX_DESCRIPTION_LEN,
    MAX_LABEL_LEN, MAX_OPTIONS, MAX_TITLE_LEN,
};
use vstd::prelude::*;

verus! {

/// The terms that a creator proposes for a market.
pub struct Terms {
    pub seed: nat,
    pub title: Seq<char>,
    pub description: Seq<char>,
    pub image_url: Seq<char>,
    pub ended_time: int,
    pub reveal_deadline: int,
    pub creator_fee: nat,
    pub options: Seq<OptionView>,
}

/// Why a market with the given terms cannot be created, if it cannot. The
/// checks are made in this order and the first that fails decides.
pub open spec fn create_error(s: CreatePredictionView, terms: Terms) -> Option<ErrorCode> {
    if s.config.is_paused {
        Some(ErrorCode::ProgramIsPaused)
    } else if text_len(terms.title) > MAX_TITLE_LEN {
        Some(ErrorCode::TitleTooLong)
    } else if text_len(terms.description) > MAX_DESCRIPTION_LEN {
        Some(ErrorCode::DescriptionTooLong)
    } else if terms.options.len() > MAX_OPTIONS {
        Some(ErrorCode::TooManyOptions)
    } else if !labels_within_limit(terms.options) {
        Some(ErrorCode::OptionLabelTooLong)
    } else if terms.ended_time <= s.now + END_MARGIN {
        Some(ErrorCode::EndedTimeInvalid)
    } else if terms.reveal_deadline <= terms.ended_time {
        Some(ErrorCode::RevealDeadlineInvalid)
    } else {
        None
    }
}

/// The market that is created from the given terms: it takes the protocol's
/// fee from the configuration as it is now, its pool is empty, nothing is staked
/// on its options and its outcome is not revealed.
pub open spec fn created(s: CreatePredictionView, terms: Terms) -> PredictionView {
    PredictionView {
        title: terms.title,
        description: terms.description,
        image_url: terms.image_url,
        created_time: s.now,
        ended_time: terms.ended_time,
        reveal_deadline: terms.reveal_deadline,
        revealed_time: 0,
        protocol_fee: s.config.protocol_fee as nat,
        creator_fee: terms.creator_fee,
        creator: s.creator,
        result_index: 0,
        participants: 0,
        total_pool: 0,
        seed: terms.seed,
        options: unstaked(terms.options),
    }
}

/// The notification of the market that is created from the given terms.
pub open spec fn created_event(s: CreatePredictionView, terms: Terms) -> PredictionCreatedView {
    PredictionCreatedView {
        pred_key: s.prediction_key,
        creator: s.creator,
        title: terms.title,
        description: terms.description,
        image_url: terms.image_url,
        created_time: s.now,
        ended_time: terms.ended_time,
        reveal_deadline: terms.reveal_deadline,
        creator_fee: terms.creator_fee,
        protocol_fee: s.config.protocol_fee as nat,
        options: unstaked(terms.options),
    }
}

/// A market that is created is well formed.
pub proof fn lemma_created_wf(s: CreatePredictionView, terms: Terms)
    requires
        create_error(s, terms) is None,
    ensures
        created(s, terms).wf(),
        !created(s, terms).is_revealed(),
{
    lemma_unstaked_total(terms.options);
    assert forall|i: int| 0 <= i < terms.options.len() implies text_len(
        #[trigger] unstaked(terms.options)[i].label,
    ) <= MAX_LABEL_LEN by {
        assert(unstaked(terms.options)[i].label == terms.options[i].label);
    }
}

/// Tells whether no label of the given options is longer than a label may be.
fn labels_fit(options: &Vec<OptionData>) -> (fit: bool)
    ensures
        fit == labels_within_limit(option_views(options@)),
{
    let mut i: usize = 0;
    while i < options.len()
        invariant
            i <= options@.len(),
            forall|j: int|
                0 <= j < i ==> text_len(#[trigger] option_views(options@)[j].label)
                    <= MAX_LABEL_LEN,
        decreases options@.len() - i,
    {
        if byte_len(options[i].label.as_str()) > MAX_LABEL_LEN {
            assert(text_len(option_views(options@)[i as int].label) > MAX_LABEL_LEN);
            return false;
        }
        i = i + 1;
    }
    true
}

/// A copy of the given options with nothing staked on them.
fn unstaked_copy(options: &Vec<OptionData>) -> (copy: Vec<OptionData>)
    ensures
        option_views(copy@) == unstaked(option_views(options@)),
{
    let mut copy: Vec<OptionData> = Vec::new();
    let mut i: usize = 0;
    while i < options.len()
        invariant
            i <= options@.len(),
            copy@.len() == i,
            forall|j: int|
                0 <= j < i ==> (#[trigger] copy@[j])@ == (OptionView {
                    label: options@[j].label@,
                    amount: 0,
                }),
        decreases options@.len() - i,
    {
        copy.push(OptionData { label: options[i].label.clone(), amount: 0 });
        i = i + 1;
    }
    copy
}

/// Creates a market with the given terms in the record `ctx.prediction`.
///
/// The terms are checked in the order of [`create_error`]; when a check fails
/// its error is returned and nothing changes. Otherwise the record becomes
/// the market [`created`], whatever it held before, and the notification of the
/// creation is returned. Amounts that the proposed options carry are dropped:
/// a market starts with nothing staked.
pub fn create(
    ctx: &mut CreatePrediction,
    seed: u64,
    title: String,
    description: String,
    image_url: String,
    ended_time: i64,
    reveal_deadline: i64,
    creator_fee: u8,
    options: Vec<OptionData>,
) -> (res: Result<PredictionCreated, ErrorCode>)
    ensures
        ({
            let terms = Terms {
                seed: seed as nat,
                title: title@,
                description: description@,
                image_url: image_url@,
                ended_time: ended_time as int,
                reveal_deadline: reveal_deadline as int,
                creator_fee: creator_fee as nat,
                options: option_views(options@),
            };
            match create_error(old(ctx)@, terms) {
                Some(e) => {
                    &&& res == Err::<PredictionCreated, ErrorCode>(e)
                    &&& *final(ctx) == *old(ctx)
                },
                None => {
                    &&& res matches Ok(event)
                    &&& event@ == created_event(old(ctx)@, terms)
                    &&& final(ctx)@ == (CreatePredictionView {
                        prediction: created(old(ctx)@, terms),
                        ..old(ctx)@
                    })
                    &&& final(ctx)@.prediction.wf()
                },
            }
        }),
{
    if ctx.config.is_paused {
        return Err(ErrorCode::ProgramIsPaused);
    }
    if byte_len(title.as_str()) > MAX_TITLE_LEN {
        return Err(ErrorCode::TitleTooLong);
    }
    if byte_len(description.as_str()) > MAX_DESCRIPTION_LEN {
        return Err(ErrorCode::DescriptionTooLong);
    }
    if options.len() > MAX_OPTIONS {
        return Err(ErrorCode::TooManyOptions);
    }
    if !labels_fit(&options) {
        return Err(ErrorCode::OptionLabelTooLong);
    }
    let now = ctx.now;
    if ended_time as i128 <= now as i128 + END_MARGIN as i128 {
        return Err(ErrorCode::EndedTimeInvalid);
    }
    if reveal_deadline <= ended_time {
        return Err(ErrorCode::RevealDeadlineInvalid);
    }
    proof {
        lemma_created_wf(
            old(ctx)@,
            Terms {
                seed: seed as nat,
                title: title@,
                description: description@,
                image_url: image_url@,
                ended_time: ended_time as int,
                reveal_deadline: reveal_deadline as int,
                creator_fee: creator_fee as nat,
                options: option_views(options@),
            },
        );
    }
    let protocol_fee = ctx.config.protocol_fee;
    let event = PredictionCreated {
        pred_key: ctx.prediction_key,
        creator: ctx.creator,
        title: title.clone(),
        description: description.clone(),
        image_url: image_url.clone(),
        created_time: now,
        ended_time,
        reveal_deadline,
        creator_fee,
        protocol_fee,
        options: unstaked_copy(&options),
    };
    ctx.prediction = Prediction {
        title,
        description,
        image_url,
        created_time: now,
        ended_time,
        reveal_deadline,
        revealed_time: 0,
        protocol_fee,
        creator_fee,
        creator: ctx.creator,
        result_index: 0,
        participants: 0,
        total_pool: 0,
        seed,
        options: unstaked_copy(&options),
    };
    Ok(event)
}

} // verus!
