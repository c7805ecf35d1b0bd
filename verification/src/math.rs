//! Fees and rewards. All of them are rounded down, so what rounding loses
//! stays in the pool.

use vstd::prelude::*;

verus! {

/// A fee is a number of hundredths.
pub const PERCENT: u64 = 100;

/// `percent` hundredths of `total`, rounded down.
pub open spec fn percent_of(total: nat, percent: nat) -> nat {
    total * percent / 100
}

/// What is left of a pool for its winners once the creator and the protocol
/// have taken their fees.
pub open spec fn reward_pool(total_pool: nat, creator_fee: nat, protocol_fee: nat) -> nat
    recommends
        creator_fee + protocol_fee <= PERCENT,
{
    percent_of(total_pool, (PERCENT - creator_fee - protocol_fee) as nat)
}

/// The part of `pool` that a stake earns when `winning_total` is the sum of
/// the winning stakes, rounded down.
pub open spec fn reward_share(stake: nat, pool: nat, winning_total: nat) -> nat
    recommends
        winning_total > 0,
{
    stake * pool / winning_total
}

/// No more than the whole is taken when the fee is no more than the whole.
pub proof fn lemma_percent_of_bound(total: nat, percent: nat)
    requires
        percent <= PERCENT,
    ensures
        percent_of(total, percent) <= total,
{
    assert(total * percent <= total * 100) by (nonlinear_arith)
        requires
            percent <= 100,
    ;
}

/// `percent` hundredths of `total`, rounded down, or `None` when that is more
/// than a `u64` holds.
pub fn percent_of_amount(total: u64, percent: u8) -> (part: Option<u64>)
    ensures
        match part {
            Some(part) => part == percent_of(total as nat, percent as nat),
            None => percent_of(total as nat, percent as nat) > u64::MAX,
        },
{
    assert(total * percent <= u64::MAX * 255) by (nonlinear_arith)
        requires
            total <= u64::MAX,
            percent <= 255,
    ;
    let wide: u128 = (total as u128) * (percent as u128) / (PERCENT as u128);
    if wide > u64::MAX as u128 {
        None
    } else {
        Some(wide as u64)
    }
}

/// What is left of a pool for its winners, or `None` when the two fees
/// together are more than the whole.
pub fn reward_pool_amount(total_pool: u64, creator_fee: u8, protocol_fee: u8) -> (pool: Option<
    u64,
>)
    ensures
        match pool {
            Some(pool) => {
                &&& creator_fee + protocol_fee <= PERCENT
                &&& pool == reward_pool(total_pool as nat, creator_fee as nat, protocol_fee as nat)
            },
            None => creator_fee + protocol_fee > PERCENT,
        },
{
    let fees: u16 = creator_fee as u16 + protocol_fee as u16;
    if fees > PERCENT as u16 {
        return None;
    }
    let rest: u8 = (PERCENT as u16 - fees) as u8;
    proof {
        lemma_percent_of_bound(total_pool as nat, rest as nat);
    }
    percent_of_amount(total_pool, rest)
}

/// The part of `pool` that a stake earns, rounded down, or `None` when it
/// has no value that a `u64` holds: nothing is staked on the winning option,
/// or the part is too large.
pub fn reward_share_amount(stake: u64, pool: u64, winning_total: u64) -> (share: Option<u64>)
    ensures
        match share {
            Some(share) => {
                &&& winning_total > 0
                &&& share == reward_share(stake as nat, pool as nat, winning_total as nat)
            },
            None => winning_total == 0 || reward_share(
                stake as nat,
                pool as nat,
                winning_total as nat,
            ) > u64::MAX,
        },
{
    if winning_total == 0 {
        return None;
    }
    assert(stake * pool <= u64::MAX * u64::MAX) by (nonlinear_arith)
        requires
            stake <= u64::MAX,
            pool <= u64::MAX,
    ;
    let wide: u128 = (stake as u128) * (pool as u128) / (winning_total as u128);
    if wide > u64::MAX as u128 {
        None
    } else {
        Some(wide as u64)
    }
}

} // verus!
