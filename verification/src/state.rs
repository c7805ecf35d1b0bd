//! The stored records: the configuration, a market with its options, and a
//! participation, each with the mathematical value that contracts speak of.

use crate::address::Address;
use vstd::prelude::*;
use vstd::utf8::encode_utf8;

verus! {

/// A title holds at most this many bytes.
pub const MAX_TITLE_LEN: usize = 50;

/// A description holds at most this many bytes.
pub const MAX_DESCRIPTION_LEN: usize = 500;

/// A market has at most this many options.
pub const MAX_OPTIONS: usize = 10;

/// An option label holds at most this many bytes.
pub const MAX_LABEL_LEN: usize = 10;

/// A market must end more than this many time units after it is created.
pub const END_MARGIN: i64 = 2;

/// The length of a text, counted in the bytes of its UTF-8 form.
pub open spec fn text_len(text: Seq<char>) -> nat {
    encode_utf8(text).len()
}

/// The length of a text in bytes.
pub fn byte_len(text: &str) -> (n: usize)
    ensures
        n == text_len(text@),
{
    text.as_bytes().len()
}

/// The administrative record. There is one of it.
///
/// Its administrator is unset until the first configuration call claims it.
#[derive(Clone, Copy, Debug, PartialEq, Eq)]
pub struct Config {
    /// The party that may change this record.
    pub admin: Address,
    /// The protocol's fee, in percent of a settled pool.
    pub protocol_fee: u8,
    /// The party that receives the protocol's fee.
    pub fee_receiver: Address,
    /// While set, no market can be created.
    pub is_paused: bool,
}

impl Default for Config {
    /// The unclaimed configuration: no administrator, no fee, not paused.
    fn default() -> (config: Config)
        ensures
            config.admin.is_unset(),
            config.protocol_fee == 0,
            config.fee_receiver.is_unset(),
            !config.is_paused,
    {
        Config {
            admin: Address::default(),
            protocol_fee: 0,
            fee_receiver: Address::default(),
            is_paused: false,
        }
    }
}

/// One outcome of a market, with all that has been staked on it.
#[derive(Clone, Debug, PartialEq, Eq)]
pub struct OptionData {
    pub label: String,
    pub amount: u64,
}

/// The value of an [`OptionData`].
pub struct OptionView {
    pub label: Seq<char>,
    pub amount: nat,
}

impl View for OptionData {
    type V = OptionView;

    open spec fn view(&self) -> OptionView {
        OptionView { label: self.label@, amount: self.amount as nat }
    }
}

/// The values of a list of options, in order.
pub open spec fn option_views(options: Seq<OptionData>) -> Seq<OptionView> {
    options.map_values(|option: OptionData| option@)
}

/// Whether no label of the given options is longer than a label may be.
pub open spec fn labels_within_limit(options: Seq<OptionView>) -> bool {
    forall|i: int|
        0 <= i < options.len() ==> text_len(#[trigger] options[i].label) <= MAX_LABEL_LEN
}

/// The given options with nothing staked on them.
pub open spec fn unstaked(options: Seq<OptionView>) -> Seq<OptionView> {
    Seq::new(options.len(), |i: int| OptionView { label: options[i].label, amount: 0 })
}

/// The sum of the amounts staked on the given options.
pub open spec fn options_total(options: Seq<OptionView>) -> nat
    decreases options.len(),
{
    if options.len() == 0 {
        0
    } else {
        options_total(options.drop_last()) + options.last().amount
    }
}

/// Options on which nothing is staked sum to nothing.
pub proof fn lemma_unstaked_total(options: Seq<OptionView>)
    ensures
        options_total(unstaked(options)) == 0,
    decreases options.len(),
{
    if options.len() > 0 {
        lemma_unstaked_total(options.drop_last());
        assert(unstaked(options).drop_last() =~= unstaked(options.drop_last()));
    }
}

/// The given options with `amount` more staked on the one at `index`.
pub open spec fn with_stake(options: Seq<OptionView>, index: int, amount: nat) -> Seq<OptionView>
    recommends
        0 <= index < options.len(),
{
    options.update(
        index,
        OptionView { label: options[index].label, amount: options[index].amount + amount },
    )
}

/// A stake on one option adds just its amount to the sum over all options.
pub proof fn lemma_with_stake_total(options: Seq<OptionView>, index: int, amount: nat)
    requires
        0 <= index < options.len(),
    ensures
        options_total(with_stake(options, index, amount)) == options_total(options) + amount,
    decreases options.len(),
{
    let after = with_stake(options, index, amount);
    if index == options.len() - 1 {
        assert(after.drop_last() =~= options.drop_last());
    } else {
        lemma_with_stake_total(options.drop_last(), index, amount);
        assert(after.drop_last() =~= with_stake(options.drop_last(), index, amount));
    }
}

/// A market: its terms, which are fixed when it is created, the state of its
/// pool, and its outcome once revealed.
#[derive(Clone, Debug, PartialEq, Eq)]
pub struct Prediction {
    pub title: String,
    pub description: String,
    pub image_url: String,
    /// When the market was created.
    pub created_time: i64,
    /// The last moment at which a stake is accepted.
    pub ended_time: i64,
    /// The last moment at which the outcome can be revealed.
    pub reveal_deadline: i64,
    /// When the outcome was revealed; 0 while it is not.
    pub revealed_time: i64,
    /// The protocol's fee in percent, as configured when the market was created.
    pub protocol_fee: u8,
    /// The creator's fee in percent.
    pub creator_fee: u8,
    pub creator: Address,
    /// The option that won. It means something only once the outcome is revealed.
    pub result_index: u8,
    /// How many participations hold a stake.
    pub participants: u32,
    /// The sum of all stakes.
    pub total_pool: u64,
    /// The number the creator chose to address this market by.
    pub seed: u64,
    pub options: Vec<OptionData>,
}

/// The value of a [`Prediction`].
pub struct PredictionView {
    pub title: Seq<char>,
    pub description: Seq<char>,
    pub image_url: Seq<char>,
    pub created_time: int,
    pub ended_time: int,
    pub reveal_deadline: int,
    pub revealed_time: int,
    pub protocol_fee: nat,
    pub creator_fee: nat,
    pub creator: Address,
    pub result_index: nat,
    pub participants: nat,
    pub total_pool: nat,
    pub seed: nat,
    pub options: Seq<OptionView>,
}

impl View for Prediction {
    type V = PredictionView;

    open spec fn view(&self) -> PredictionView {
        PredictionView {
            title: self.title@,
            description: self.description@,
            image_url: self.image_url@,
            created_time: self.created_time as int,
            ended_time: self.ended_time as int,
            reveal_deadline: self.reveal_deadline as int,
            revealed_time: self.revealed_time as int,
            protocol_fee: self.protocol_fee as nat,
            creator_fee: self.creator_fee as nat,
            creator: self.creator,
            result_index: self.result_index as nat,
            participants: self.participants as nat,
            total_pool: self.total_pool as nat,
            seed: self.seed as nat,
            options: option_views(self.options@),
        }
    }
}

impl PredictionView {
    /// Whether the outcome has been revealed.
    pub open spec fn is_revealed(self) -> bool {
        self.revealed_time != 0
    }

    /// Whether the two markets have the same terms: texts, times, fees,
    /// creator, seed, and the labels of their options in order.
    pub open spec fn same_terms(self, other: PredictionView) -> bool {
        &&& self.title == other.title
        &&& self.description == other.description
        &&& self.image_url == other.image_url
        &&& self.created_time == other.created_time
        &&& self.ended_time == other.ended_time
        &&& self.reveal_deadline == other.reveal_deadline
        &&& self.protocol_fee == other.protocol_fee
        &&& self.creator_fee == other.creator_fee
        &&& self.creator == other.creator
        &&& self.seed == other.seed
        &&& self.options.len() == other.options.len()
        &&& forall|i: int|
            0 <= i < self.options.len() ==> (#[trigger] self.options[i]).label
                == other.options[i].label
    }

    /// What holds of every market from its creation on: its texts and options
    /// are within their limits, its deadlines are in order, its pool is the sum
    /// of what its options hold, and a revealed outcome is one of its options.
    pub open spec fn wf(self) -> bool {
        &&& text_len(self.title) <= MAX_TITLE_LEN
        &&& text_len(self.description) <= MAX_DESCRIPTION_LEN
        &&& self.options.len() <= MAX_OPTIONS
        &&& labels_within_limit(self.options)
        &&& self.ended_time > self.created_time + END_MARGIN
        &&& self.reveal_deadline > self.ended_time
        &&& self.total_pool == options_total(self.options)
        &&& (self.is_revealed() ==> self.result_index < self.options.len())
    }
}

impl Default for Prediction {
    /// An empty record, as the host allocates it before a market is created in it.
    fn default() -> (prediction: Prediction)
        ensures
            prediction@.title.len() == 0,
            prediction@.description.len() == 0,
            prediction@.image_url.len() == 0,
            prediction@.options.len() == 0,
            prediction@.created_time == 0,
            prediction@.ended_time == 0,
            prediction@.reveal_deadline == 0,
            prediction@.revealed_time == 0,
            prediction@.protocol_fee == 0,
            prediction@.creator_fee == 0,
            prediction@.creator.is_unset(),
            prediction@.result_index == 0,
            prediction@.participants == 0,
            prediction@.total_pool == 0,
            prediction@.seed == 0,
    {
        Prediction {
            title: String::new(),
            description: String::new(),
            image_url: String::new(),
            created_time: 0,
            ended_time: 0,
            reveal_deadline: 0,
            revealed_time: 0,
            protocol_fee: 0,
            creator_fee: 0,
            creator: Address::default(),
            result_index: 0,
            participants: 0,
            total_pool: 0,
            seed: 0,
            options: Vec::new(),
        }
    }
}

/// A participation: what one party has staked on one option of one market.
#[derive(Clone, Copy, Debug, PartialEq, Eq)]
pub struct UserOption {
    /// The party that owns the stake.
    pub user: Address,
    /// The option that the stake backs.
    pub option_index: u8,
    /// The sum of all that the party has staked on the option.
    pub amount: u64,
    /// Whether the stake has been paid out, as a reward or as a refund.
    pub claimed: bool,
}

/// The value of a [`UserOption`].
pub struct UserOptionView {
    pub user: Address,
    pub option_index: nat,
    pub amount: nat,
    pub claimed: bool,
}

impl View for UserOption {
    type V = UserOptionView;

    open spec fn view(&self) -> UserOptionView {
        UserOptionView {
            user: self.user,
            option_index: self.option_index as nat,
            amount: self.amount as nat,
            claimed: self.claimed,
        }
    }
}

impl Default for UserOption {
    /// The record of a party that has not staked yet.
    fn default() -> (record: UserOption)
        ensures
            record.user.is_unset(),
            record.option_index == 0,
            record.amount == 0,
            !record.claimed,
    {
        UserOption { user: Address::default(), option_index: 0, amount: 0, claimed: false }
    }
}

} // verus!
