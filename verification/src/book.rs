//! The participations of one market taken together: that the market's pool
//! is what they hold, that the market counts them, and that the fees and the
//! rewards of the winners fit in the pool.
//!
//! The host keeps the participations; here they are a sequence of records
//! that contracts can sum over.

use crate::accounts::CreatePredictionView;
use crate::address::Address;
use crate::claim::{reward_of, winners_pool, winning_total};
use crate::create::{create_error, created, Terms};
use crate::math::{reward_share, PERCENT};
use crate::predict::{predict_error, predicted_market, predicted_record};
use crate::revealing::{creator_cut, protocol_cut};
use crate::state::{
    lemma_unstaked_total, lemma_with_stake_total, options_total, PredictionView, UserOptionView,
};
use vstd::arithmetic::div_mod::lemma_fundamental_div_mod;
use vstd::prelude::*;

verus! {

/// Whether the record is the participation of the party `user` for the
/// option at `option_index`.
pub open spec fn backs(record: UserOptionView, user: Address, option_index: nat) -> bool {
    record.user == user && record.option_index == option_index
}

/// Whether the book holds a participation of `user` for the option.
pub open spec fn stored(book: Seq<UserOptionView>, user: Address, option_index: nat) -> bool {
    exists|i: int| 0 <= i < book.len() && backs(#[trigger] book[i], user, option_index)
}

/// Where the book holds the participation of `user` for the option.
pub open spec fn slot(book: Seq<UserOptionView>, user: Address, option_index: nat) -> int {
    choose|i: int| 0 <= i < book.len() && backs(#[trigger] book[i], user, option_index)
}

/// The participation of `user` for the option as the host loads it: the one
/// that the book holds, or one that holds nothing.
pub open spec fn load(
    book: Seq<UserOptionView>,
    user: Address,
    option_index: nat,
) -> UserOptionView {
    if stored(book, user, option_index) {
        book[slot(book, user, option_index)]
    } else {
        UserOptionView { user, option_index, amount: 0, claimed: false }
    }
}

/// The book once the host has stored the record in the place of its party
/// and option.
pub open spec fn store(book: Seq<UserOptionView>, record: UserOptionView) -> Seq<UserOptionView> {
    if stored(book, record.user, record.option_index) {
        book.update(slot(book, record.user, record.option_index), record)
    } else {
        book.push(record)
    }
}

/// One attempt to stake.
pub struct StakeCall {
    pub user: Address,
    pub option_index: nat,
    pub amount: nat,
    pub now: int,
}

/// The market and its book after one attempt to stake. An attempt that is
/// refused leaves both as they were.
pub open spec fn stake_step(m: PredictionView, book: Seq<UserOptionView>, call: StakeCall) -> (
    PredictionView,
    Seq<UserOptionView>,
) {
    let record = load(book, call.user, call.option_index);
    if predict_error(m, record, call.now, call.option_index, call.amount) is None {
        (
            predicted_market(m, call.option_index, call.amount, record.amount == 0),
            store(book, predicted_record(record, call.user, call.option_index, call.amount)),
        )
    } else {
        (m, book)
    }
}

/// The market and its book after the given attempts to stake, made in order.
pub open spec fn stake_all(
    m: PredictionView,
    book: Seq<UserOptionView>,
    calls: Seq<StakeCall>,
) -> (PredictionView, Seq<UserOptionView>)
    decreases calls.len(),
{
    if calls.len() == 0 {
        (m, book)
    } else {
        let before = stake_all(m, book, calls.drop_last());
        stake_step(before.0, before.1, calls.last())
    }
}

/// What the record holds for the option at `option_index`: its stake if it
/// backs that option, nothing otherwise.
pub open spec fn stake_on(record: UserOptionView, option_index: nat) -> nat {
    if record.option_index == option_index {
        record.amount
    } else {
        0
    }
}

/// The sum of all stakes in the book.
pub open spec fn book_total(book: Seq<UserOptionView>) -> nat
    decreases book.len(),
{
    if book.len() == 0 {
        0
    } else {
        book_total(book.drop_last()) + book.last().amount
    }
}

/// The sum of the stakes in the book that back the option at `option_index`.
pub open spec fn book_total_on(book: Seq<UserOptionView>, option_index: nat) -> nat
    decreases book.len(),
{
    if book.len() == 0 {
        0
    } else {
        book_total_on(book.drop_last(), option_index) + stake_on(book.last(), option_index)
    }
}

/// How many participations in the book back the option at `option_index`.
pub open spec fn book_count_on(book: Seq<UserOptionView>, option_index: nat) -> nat
    decreases book.len(),
{
    if book.len() == 0 {
        0
    } else {
        book_count_on(book.drop_last(), option_index) + if book.last().option_index
            == option_index {
            1nat
        } else {
            0nat
        }
    }
}

/// The sum of the rewards of the participations in the book that back the
/// market's winning option.
pub open spec fn book_rewards(book: Seq<UserOptionView>, m: PredictionView) -> nat
    decreases book.len(),
{
    if book.len() == 0 {
        0
    } else {
        book_rewards(book.drop_last(), m) + if book.last().option_index == m.result_index {
            reward_of(m, book.last().amount)
        } else {
            0
        }
    }
}

/// The market's pool is conserved: it is the sum of what its options hold and
/// the sum of what its participations hold, and each option holds the sum of
/// the participations that back it.
pub open spec fn conserved(m: PredictionView, book: Seq<UserOptionView>) -> bool {
    &&& m.total_pool == options_total(m.options)
    &&& m.total_pool == book_total(book)
    &&& forall|i: int|
        0 <= i < m.options.len() ==> (#[trigger] m.options[i]).amount == book_total_on(
            book,
            i as nat,
        )
}

proof fn lemma_update_total(book: Seq<UserOptionView>, k: int, record: UserOptionView)
    requires
        0 <= k < book.len(),
    ensures
        book_total(book.update(k, record)) + book[k].amount == book_total(book) + record.amount,
    decreases book.len(),
{
    let after = book.update(k, record);
    if k == book.len() - 1 {
        assert(after.drop_last() =~= book.drop_last());
    } else {
        lemma_update_total(book.drop_last(), k, record);
        assert(after.drop_last() =~= book.drop_last().update(k, record));
    }
}

proof fn lemma_update_total_on(
    book: Seq<UserOptionView>,
    k: int,
    record: UserOptionView,
    option_index: nat,
)
    requires
        0 <= k < book.len(),
    ensures
        book_total_on(book.update(k, record), option_index) + stake_on(book[k], option_index)
            == book_total_on(book, option_index) + stake_on(record, option_index),
    decreases book.len(),
{
    let after = book.update(k, record);
    if k == book.len() - 1 {
        assert(after.drop_last() =~= book.drop_last());
    } else {
        lemma_update_total_on(book.drop_last(), k, record, option_index);
        assert(after.drop_last() =~= book.drop_last().update(k, record));
    }
}

/// Storing a record whose party and option are those it was loaded for adds
/// to the sums of the book what the record has gained.
proof fn lemma_store_totals(
    book: Seq<UserOptionView>,
    user: Address,
    option_index: nat,
    record: UserOptionView,
)
    requires
        backs(record, user, option_index),
    ensures
        book_total(store(book, record)) + load(book, user, option_index).amount == book_total(book)
            + record.amount,
        forall|i: nat| #[trigger]
            book_total_on(store(book, record), i) + stake_on(load(book, user, option_index), i)
                == book_total_on(book, i) + stake_on(record, i),
{
    if stored(book, user, option_index) {
        let k = slot(book, user, option_index);
        lemma_update_total(book, k, record);
        assert forall|i: nat| #[trigger]
            book_total_on(store(book, record), i) + stake_on(load(book, user, option_index), i)
                == book_total_on(book, i) + stake_on(record, i) by {
            lemma_update_total_on(book, k, record, i);
        }
    } else {
        assert(book.push(record).drop_last() =~= book);
    }
}

/// A stake conserves the pool.
pub proof fn lemma_stake_conserves(
    m: PredictionView,
    book: Seq<UserOptionView>,
    call: StakeCall,
)
    requires
        conserved(m, book),
    ensures
        conserved(stake_step(m, book, call).0, stake_step(m, book, call).1),
{
    let record = load(book, call.user, call.option_index);
    if predict_error(m, record, call.now, call.option_index, call.amount) is None {
        let staked = predicted_record(record, call.user, call.option_index, call.amount);
        lemma_with_stake_total(m.options, call.option_index as int, call.amount);
        lemma_store_totals(book, call.user, call.option_index, staked);
    }
}

/// Pool conservation. Whatever stakes are attempted on a market, in whatever
/// order, its pool stays the sum of what its options hold and the sum of what
/// its participations hold.
pub proof fn lemma_pool_conservation(
    m: PredictionView,
    book: Seq<UserOptionView>,
    calls: Seq<StakeCall>,
)
    requires
        conserved(m, book),
    ensures
        conserved(stake_all(m, book, calls).0, stake_all(m, book, calls).1),
    decreases calls.len(),
{
    if calls.len() > 0 {
        lemma_pool_conservation(m, book, calls.drop_last());
        let before = stake_all(m, book, calls.drop_last());
        lemma_stake_conserves(before.0, before.1, calls.last());
    }
}

/// A market that is created, with no participation yet, conserves its pool,
/// and so does every state that stakes lead it to.
pub proof fn lemma_created_conserves(s: CreatePredictionView, terms: Terms, calls: Seq<StakeCall>)
    requires
        create_error(s, terms) is None,
    ensures
        conserved(created(s, terms), Seq::empty()),
        conserved(
            stake_all(created(s, terms), Seq::empty(), calls).0,
            stake_all(created(s, terms), Seq::empty(), calls).1,
        ),
{
    lemma_unstaked_total(terms.options);
    lemma_pool_conservation(created(s, terms), Seq::empty(), calls);
}

/// Whether the book holds at most one participation for each party and
/// option, and each of them holds a stake.
pub open spec fn well_kept(book: Seq<UserOptionView>) -> bool {
    &&& forall|i: int| 0 <= i < book.len() ==> (#[trigger] book[i]).amount > 0
    &&& forall|i: int, j: int|
        #![trigger book[i], book[j]]
        0 <= i < j < book.len() ==> !backs(book[i], book[j].user, book[j].option_index)
}

/// Whether every one of the attempts stakes something.
pub open spec fn all_positive(calls: Seq<StakeCall>) -> bool {
    forall|i: int| 0 <= i < calls.len() ==> (#[trigger] calls[i]).amount > 0
}

/// A market counts its participations. As long as every stake is of
/// something, the count of a market is the number of participations in its
/// book, which holds one for each party and option that was staked on: a
/// repeated stake adds to the one there is, a stake on another option makes a
/// new one.
///
/// A stake of nothing on a participation that holds nothing is counted each
/// time, which is why such stakes are left out here.
pub proof fn lemma_participants_counted(
    m: PredictionView,
    book: Seq<UserOptionView>,
    calls: Seq<StakeCall>,
)
    requires
        m.participants == book.len(),
        well_kept(book),
        all_positive(calls),
    ensures
        stake_all(m, book, calls).0.participants == stake_all(m, book, calls).1.len(),
        well_kept(stake_all(m, book, calls).1),
    decreases calls.len(),
{
    if calls.len() > 0 {
        let earlier = calls.drop_last();
        assert forall|i: int| 0 <= i < earlier.len() implies #[trigger] earlier[i].amount > 0 by {
            assert(earlier[i] == calls[i]);
        }
        lemma_participants_counted(m, book, earlier);
        let before = stake_all(m, book, earlier);
        let call = calls.last();
        let record = load(before.1, call.user, call.option_index);
        if predict_error(before.0, record, call.now, call.option_index, call.amount) is None {
            let staked = predicted_record(record, call.user, call.option_index, call.amount);
            let after = store(before.1, staked);
            if stored(before.1, call.user, call.option_index) {
                assert forall|i: int, j: int|
                    #![trigger after[i], after[j]]
                    0 <= i < j < after.len() implies !backs(
                        after[i],
                        after[j].user,
                        after[j].option_index,
                    ) by {
                    assert(!backs(before.1[i], before.1[j].user, before.1[j].option_index));
                }
            } else {
                assert forall|i: int, j: int|
                    #![trigger after[i], after[j]]
                    0 <= i < j < after.len() implies !backs(
                        after[i],
                        after[j].user,
                        after[j].option_index,
                    ) by {
                    if j < before.1.len() {
                        assert(!backs(before.1[i], before.1[j].user, before.1[j].option_index));
                    } else {
                        assert(!backs(before.1[i], call.user, call.option_index));
                    }
                }
            }
        }
    }
}

/// What rounding down takes from the rewards of the participations that back
/// the option, in units of `1 / winning` of the pool's unit.
spec fn book_rounding(
    book: Seq<UserOptionView>,
    option_index: nat,
    pool: nat,
    winning: nat,
) -> nat
    decreases book.len(),
{
    if book.len() == 0 {
        0
    } else {
        book_rounding(book.drop_last(), option_index, pool, winning) + if book.last().option_index
            == option_index {
            (book.last().amount * pool) % winning
        } else {
            0
        }
    }
}

/// The rewards of the participations that back the option, for a pool and a
/// winning total that need not be the market's.
spec fn book_shares(book: Seq<UserOptionView>, option_index: nat, pool: nat, winning: nat) -> nat
    decreases book.len(),
{
    if book.len() == 0 {
        0
    } else {
        book_shares(book.drop_last(), option_index, pool, winning) + if book.last().option_index
            == option_index {
            reward_share(book.last().amount, pool, winning)
        } else {
            0
        }
    }
}

proof fn lemma_book_shares(book: Seq<UserOptionView>, m: PredictionView)
    ensures
        book_rewards(book, m) == book_shares(
            book,
            m.result_index,
            winners_pool(m),
            winning_total(m),
        ),
    decreases book.len(),
{
    if book.len() > 0 {
        lemma_book_shares(book.drop_last(), m);
    }
}

proof fn lemma_share_rounding(stake: nat, pool: nat, winning: nat)
    requires
        winning > 0,
    ensures
        winning * reward_share(stake, pool, winning) + (stake * pool) % winning == stake
            * pool,
        0 <= (stake * pool) % winning <= winning - 1,
{
    lemma_fundamental_div_mod((stake * pool) as int, winning as int);
}

proof fn lemma_shares_and_rounding(
    book: Seq<UserOptionView>,
    option_index: nat,
    pool: nat,
    winning: nat,
)
    requires
        winning > 0,
    ensures
        winning * book_shares(book, option_index, pool, winning) + book_rounding(
            book,
            option_index,
            pool,
            winning,
        ) == book_total_on(book, option_index) * pool,
        book_rounding(book, option_index, pool, winning) <= book_count_on(book, option_index) * (
        winning - 1),
        book_count_on(book, option_index) == 0 ==> book_total_on(book, option_index) == 0,
    decreases book.len(),
{
    if book.len() > 0 {
        let rest = book.drop_last();
        lemma_shares_and_rounding(rest, option_index, pool, winning);
        if book.last().option_index == option_index {
            let stake = book.last().amount;
            lemma_share_rounding(stake, pool, winning);
            let shares = book_shares(rest, option_index, pool, winning);
            let share = reward_share(stake, pool, winning);
            let total = book_total_on(rest, option_index);
            let count = book_count_on(rest, option_index);
            assert(winning * (shares + share) == winning * shares + winning * share)
                by (nonlinear_arith);
            assert((total + stake) * pool == total * pool + stake * pool) by (nonlinear_arith);
            assert((count + 1) * (winning - 1) == count * (winning - 1) + (winning - 1))
                by (nonlinear_arith);
        }
    } else {
        assert(winning * 0 == 0) by (nonlinear_arith);
        assert(0 * pool == 0) by (nonlinear_arith);
    }
}

/// The rewards of all winners fit in what the fees leave of the pool, and
/// rounding down leaves less than one unit per winner in it: at most the
/// number of winning participations less one. This holds of a market on whose
/// winning option something is staked, with a book whose participations for
/// that option hold what the option holds.
pub proof fn lemma_rewards_within_pool(m: PredictionView, book: Seq<UserOptionView>)
    requires
        m.result_index < m.options.len(),
        winning_total(m) > 0,
        winning_total(m) == book_total_on(book, m.result_index),
    ensures
        book_rewards(book, m) <= winners_pool(m),
        book_count_on(book, m.result_index) >= 1,
        winners_pool(m) - book_rewards(book, m) <= book_count_on(book, m.result_index) - 1,
{
    let pool = winners_pool(m);
    let winning = winning_total(m);
    let rewards = book_rewards(book, m);
    let rounding = book_rounding(book, m.result_index, pool, winning);
    let count = book_count_on(book, m.result_index);
    lemma_book_shares(book, m);
    lemma_shares_and_rounding(book, m.result_index, pool, winning);
    assert(rewards <= pool) by (nonlinear_arith)
        requires
            winning * rewards + rounding == winning * pool,
            winning > 0,
            rounding >= 0,
    ;
    assert(pool - rewards <= count - 1) by (nonlinear_arith)
        requires
            winning * rewards + rounding == winning * pool,
            winning > 0,
            count >= 1,
            rounding <= count * (winning - 1),
    ;
}

/// Nothing is paid that was not staked. The two fees and the rewards of all
/// winners are together no more than the market's pool, as long as the fees
/// together are no more than the whole.
pub proof fn lemma_payouts_within_pool(m: PredictionView, book: Seq<UserOptionView>)
    requires
        m.creator_fee + m.protocol_fee <= PERCENT,
        m.result_index < m.options.len(),
        winning_total(m) > 0,
        winning_total(m) == book_total_on(book, m.result_index),
    ensures
        creator_cut(m) + protocol_cut(m) + winners_pool(m) <= m.total_pool,
        creator_cut(m) + protocol_cut(m) + book_rewards(book, m) <= m.total_pool,
{
    lemma_rewards_within_pool(m, book);
    let rest = (PERCENT - m.creator_fee - m.protocol_fee) as nat;
    assert(m.total_pool * m.creator_fee + m.total_pool * m.protocol_fee + m.total_pool * rest
        == m.total_pool * 100) by (nonlinear_arith)
        requires
            m.creator_fee + m.protocol_fee + rest == 100,
    ;
}

} // verus!
