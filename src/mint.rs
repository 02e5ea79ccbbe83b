use vstd::prelude::*;
use anchor_lang::prelude::Pubkey;
use crate::errors::DexError;
use crate::pool::{pool_after, pool_after_all, Pool, MAX_TICK, MIN_TICK};
use crate::position::{position_after, position_after_all, PositionInfo};
use crate::tick::{sum_of, tick_after, TickInfo};

verus! {

/// Token amount of the first asset asked for one deposit by the fixed quote.
pub const FIXED_AMOUNT_0: u64 = 1_000_000_000;

/// Token amount of the second asset asked for one deposit by the fixed quote.
pub const FIXED_AMOUNT_1: u64 = 150_000_000;

/// `[lower_tick, upper_tick)` is a non-empty range inside the tick domain.
pub open spec fn range_valid(lower_tick: i32, upper_tick: i32) -> bool {
    &&& lower_tick < upper_tick
    &&& MIN_TICK <= lower_tick
    &&& upper_tick <= MAX_TICK
}

/// Adding `amount` to the accumulator `liquidity` stays within 128 bits.
pub open spec fn fits(liquidity: u128, amount: u128) -> bool {
    liquidity + amount <= u128::MAX
}

/// The error of a deposit on the given state, if it has one: the range is
/// checked first, then the amount, then every accumulator for overflow.
pub open spec fn mint_error(
    pool_liquidity: u128,
    lower_liquidity: u128,
    upper_liquidity: u128,
    position: Option<PositionInfo>,
    lower_tick: i32,
    upper_tick: i32,
    amount: u128,
) -> Option<DexError> {
    if !range_valid(lower_tick, upper_tick) {
        Some(DexError::InvalidTickRange)
    } else if amount == 0 {
        Some(DexError::InsufficientInputAmount)
    } else if !fits(lower_liquidity, amount) || !fits(upper_liquidity, amount) || !fits(
        pool_liquidity,
        amount,
    ) || (position matches Some(p) && !fits(p.liquidity, amount)) {
        Some(DexError::LiquidityOverflow)
    } else {
        None
    }
}

/// `b` is `a` with only its aggregate liquidity possibly changed.
pub open spec fn same_pool_but_liquidity(a: Pool, b: Pool) -> bool {
    &&& b.token_0 == a.token_0
    &&& b.token_1 == a.token_1
    &&& b.sqrt_price_x96 == a.sqrt_price_x96
    &&& b.tick == a.tick
    &&& b.bump == a.bump
    &&& b.tick_spacing == a.tick_spacing
}

/// Deposits `amount` of liquidity by `owner` on `[lower_tick, upper_tick)`.
///
/// `tick_lower` and `tick_upper` are the records of the two boundary ticks,
/// `position` the record of the key `(owner, lower_tick, upper_tick)`, `None`
/// where it does not exist yet. On success both ticks, the position and the
/// pool grow by `amount`; on any error none of them changes.
pub fn add_liquidity(
    pool: &mut Pool,
    tick_lower: &mut TickInfo,
    tick_upper: &mut TickInfo,
    position: &mut Option<PositionInfo>,
    owner: Pubkey,
    lower_tick: i32,
    upper_tick: i32,
    amount: u128,
) -> (r: Result<(), DexError>)
    ensures
        lower_tick >= upper_tick ==> r == Err::<(), DexError>(DexError::InvalidTickRange),
        range_valid(lower_tick, upper_tick) && amount == 0 ==> r == Err::<(), DexError>(
            DexError::InsufficientInputAmount,
        ),
        r is Err <==> mint_error(
            old(pool).liquidity,
            old(tick_lower).liquidity,
            old(tick_upper).liquidity,
            *old(position),
            lower_tick,
            upper_tick,
            amount,
        ) is Some,
        r matches Err(e) ==> Some(e) == mint_error(
            old(pool).liquidity,
            old(tick_lower).liquidity,
            old(tick_upper).liquidity,
            *old(position),
            lower_tick,
            upper_tick,
            amount,
        ) && *final(pool) == *old(pool) && *final(tick_lower) == *old(tick_lower)
            && *final(tick_upper) == *old(tick_upper) && *final(position) == *old(position),
        r is Ok ==> {
            &&& same_pool_but_liquidity(*old(pool), *final(pool))
            &&& final(pool).liquidity == pool_after(old(pool).liquidity as int, amount as int)
            &&& (final(tick_lower).initialized, final(tick_lower).liquidity as int) == tick_after(
                old(tick_lower).initialized,
                old(tick_lower).liquidity as int,
                amount as int,
            )
            &&& (final(tick_upper).initialized, final(tick_upper).liquidity as int) == tick_after(
                old(tick_upper).initialized,
                old(tick_upper).liquidity as int,
                amount as int,
            )
            &&& *final(position) matches Some(p) && p.liquidity == position_after(
                match *old(position) {
                    Some(q) => Some(q.liquidity as int),
                    None => None,
                },
                amount as int,
            ) && match *old(position) {
                Some(q) => p.owner == q.owner && p.tick_lower == q.tick_lower && p.tick_upper
                    == q.tick_upper,
                None => p.owner == owner && p.tick_lower == lower_tick && p.tick_upper
                    == upper_tick,
            }
        },
{
    if !(lower_tick < upper_tick && lower_tick >= MIN_TICK && upper_tick <= MAX_TICK) {
        return Err(DexError::InvalidTickRange);
    }
    if amount == 0 {
        return Err(DexError::InsufficientInputAmount);
    }
    let position_fits = match position.as_ref() {
        Some(p) => p.liquidity.checked_add(amount).is_some(),
        None => true,
    };
    if tick_lower.liquidity.checked_add(amount).is_none() || tick_upper.liquidity.checked_add(
        amount,
    ).is_none() || pool.liquidity.checked_add(amount).is_none() || !position_fits {
        return Err(DexError::LiquidityOverflow);
    }
    let _ = tick_lower.update(amount);
    let _ = tick_upper.update(amount);
    let updated = match position.take() {
        Some(mut p) => {
            let _ = p.update(amount);
            p
        },
        None => PositionInfo::new(owner, lower_tick, upper_tick, amount),
    };
    *position = Some(updated);
    pool.liquidity = pool.liquidity + amount;
    Ok(())
}

/// The fixed quote: the token amounts asked for a deposit, whatever its size.
pub fn fixed_quote(amount: u128) -> (r: (u64, u64))
    ensures
        r == (FIXED_AMOUNT_0, FIXED_AMOUNT_1),
{
    (FIXED_AMOUNT_0, FIXED_AMOUNT_1)
}

/// A custody balance that should have received `amount` grew by at least that
/// much, or nothing was to be received.
pub open spec fn deposit_received(amount: u64, balance_before: u64, balance_after: u64) -> bool {
    amount == 0 || balance_after >= balance_before + amount
}

/// Checks one pool custody balance after a transfer of `amount` into it.
pub fn check_deposit(amount: u64, balance_before: u64, balance_after: u64) -> (r: Result<
    (),
    DexError,
>)
    ensures
        deposit_received(amount, balance_before, balance_after) <==> r is Ok,
        r is Err ==> r == Err::<(), DexError>(DexError::InsufficientInputAmount),
{
    if amount == 0 {
        return Ok(());
    }
    match balance_before.checked_add(amount) {
        Some(needed) if balance_after >= needed => Ok(()),
        _ => Err(DexError::InsufficientInputAmount),
    }
}

/// Checks both pool custody balances after the transfers of a deposit and
/// returns the two amounts that were required.
pub fn settle(
    amount_0: u64,
    amount_1: u64,
    balance_0_before: u64,
    balance_0_after: u64,
    balance_1_before: u64,
    balance_1_after: u64,
) -> (r: Result<(u64, u64), DexError>)
    ensures
        deposit_received(amount_0, balance_0_before, balance_0_after) && deposit_received(
            amount_1,
            balance_1_before,
            balance_1_after,
        ) ==> r == Ok::<(u64, u64), DexError>((amount_0, amount_1)),
        !(deposit_received(amount_0, balance_0_before, balance_0_after) && deposit_received(
            amount_1,
            balance_1_before,
            balance_1_after,
        )) ==> r == Err::<(u64, u64), DexError>(DexError::InsufficientInputAmount),
{
    check_deposit(amount_0, balance_0_before, balance_0_after)?;
    check_deposit(amount_1, balance_1_before, balance_1_after)?;
    Ok((amount_0, amount_1))
}

/// Additivity of deposits: after any non-empty sequence of deposits to one
/// position key, starting from no record, the record's liquidity is the sum of
/// the deposits; and the aggregate liquidity of a new pool is the sum of every
/// deposit it accepted.
pub proof fn lemma_deposits_add_up(ds: Seq<int>)
    ensures
        ds.len() > 0 ==> position_after_all(ds) == Some(sum_of(ds)),
        pool_after_all(ds) == sum_of(ds),
    decreases ds.len(),
{
    if ds.len() > 0 {
        lemma_deposits_add_up(ds.drop_last());
    }
}

} // verus!
