//! The virtual automated market maker: a constant-product pool of two purely
//! notional reserves, used for price simulation, position sizing and periodic
//! funding settlement. No real assets move through it.

use vstd::prelude::*;

use crate::arith::{mul_div, DEC_ONE};
use crate::bank::Direction;
use crate::error::ContractError;

verus! {

/// Milliseconds between two funding settlements: every eight hours.
pub const FUNDING_PERIOD_MILLIS: u128 = 8 * 60 * 60 * 1000;

/// Milliseconds in a day, the unit the funding period is measured against.
pub const MILLIS_PER_DAY: u128 = 24 * 60 * 60 * 1000;

/// Initial value of the cumulative funding accumulator (fixed-point raw).
/// It starts high so that early settlements paid by shorts cannot underflow
/// the unsigned accumulator.
pub const FUNDING_BASELINE: u128 = 1_000_000_000 * DEC_ONE;

/// The oracle a market reads its spot price from.
#[derive(Clone, Copy, Debug, PartialEq, Eq, Structural)]
pub enum OracleType {
    NATIVE,
}

/// The side that owes funding for the current settlement period.
#[derive(Clone, Copy, Debug, PartialEq, Eq, Structural)]
pub enum WhoPays {
    LONG,
    SHORT,
}

/// The most recent settlement's result: the per-unit premium fraction
/// (fixed-point raw) and the side that pays it.
#[derive(Clone, Copy, Debug, PartialEq, Eq, Structural)]
pub struct Funding {
    pub amount: u128,
    pub who_pays: WhoPays,
}

/// Immutable configuration of one market contract.
#[derive(Clone, Debug)]
pub struct Config {
    pub contract_addr: String,
    pub bank_addr: String,
    pub stable_denom: String,
    pub oracle_type: OracleType,
    pub base_denom: String,
}

/// The mutable pool state: the two virtual reserves and the funding books.
#[derive(Clone, Copy, Debug, PartialEq, Eq, Structural)]
pub struct State {
    pub quote_asset_reserve: u128,
    pub base_asset_reserve: u128,
    pub funding_period: u128,
    pub aggregated_funding: u128,
    pub funding_rate: Funding,
}

/// One row of the append-only swap log: the reserves after the swap, the
/// signed change of the base reserve, and the block time.
#[derive(Clone, Copy, Debug, PartialEq, Eq, Structural)]
pub struct SnapshotItem {
    pub base_asset_reserve: u128,
    pub quote_asset_reserve: u128,
    pub base_delta: i64,
    pub timestamp: u64,
}

/// The append-only log of market snapshots, oldest first.
#[derive(Clone, Debug)]
pub struct MarketSnapshots {
    pub snapshots: Vec<SnapshotItem>,
}

/// One market contract: configuration, pool state and swap log.
#[derive(Clone, Debug)]
pub struct Amm {
    pub config: Config,
    pub state: State,
    pub snapshots: MarketSnapshots,
}

/// The quote reserve after a swap keyed on a quote amount: a LONG sends
/// quote into the pool, a SHORT takes it out.
pub open spec fn quote_after_in(q: int, amount: int, dir: Direction) -> int {
    match dir {
        Direction::LONG => q + amount,
        Direction::SHORT => q - amount,
        Direction::NOT_SET => 0,
    }
}

/// The base reserve after a swap keyed on a quote amount: the constant
/// product `q * b` divided (flooring) by the new quote reserve.
pub open spec fn base_after_in(q: int, b: int, amount: int, dir: Direction) -> int {
    (q * b) / quote_after_in(q, amount, dir)
}

/// The absolute change of the base reserve reported by a swap keyed on a
/// quote amount.
pub open spec fn swap_in_delta(q: int, b: int, amount: int, dir: Direction) -> int {
    if base_after_in(q, b, amount, dir) > b {
        base_after_in(q, b, amount, dir) - b
    } else {
        b - base_after_in(q, b, amount, dir)
    }
}

/// The inputs on which a swap keyed on a quote amount neither overflows nor
/// divides by zero. A `NOT_SET` direction is rejected before any arithmetic.
pub open spec fn swap_in_wf(q: int, b: int, amount: int, dir: Direction) -> bool {
    match dir {
        Direction::LONG => 0 < q + amount <= u128::MAX,
        Direction::SHORT => amount < q && (q * b) / (q - amount) <= u128::MAX,
        Direction::NOT_SET => true,
    }
}

/// The base reserve after a swap keyed on a base amount: a LONG hands base
/// back to the pool when closing, a SHORT buys base back out of it.
pub open spec fn base_after_out(b: int, amount: int, dir: Direction) -> int {
    match dir {
        Direction::LONG => b + amount,
        Direction::SHORT => b - amount,
        Direction::NOT_SET => 0,
    }
}

/// The quote reserve after a swap keyed on a base amount.
pub open spec fn quote_after_out(q: int, b: int, amount: int, dir: Direction) -> int {
    (q * b) / base_after_out(b, amount, dir)
}

/// The absolute change of the quote reserve reported by a swap keyed on a
/// base amount.
pub open spec fn swap_out_delta(q: int, b: int, amount: int, dir: Direction) -> int {
    if quote_after_out(q, b, amount, dir) > q {
        quote_after_out(q, b, amount, dir) - q
    } else {
        q - quote_after_out(q, b, amount, dir)
    }
}

/// The inputs on which a swap keyed on a base amount neither overflows nor
/// divides by zero.
pub open spec fn swap_out_wf(q: int, b: int, amount: int, dir: Direction) -> bool {
    match dir {
        Direction::LONG => 0 < b + amount <= u128::MAX,
        Direction::SHORT => amount < b && (q * b) / (b - amount) <= u128::MAX,
        Direction::NOT_SET => true,
    }
}

/// Constant product, up to rounding: a swap moves the reserves from
/// `(q, b)` to `(nq, nb)` with `nb == floor(q * b / nq)`, so the product
/// after the swap equals the product before it minus the rounding loss of
/// the flooring division, which is less than one unit of the divided-by
/// reserve.
pub proof fn lemma_constant_product_preserved(q: int, b: int, nq: int, nb: int)
    requires
        0 <= q,
        0 <= b,
        0 < nq,
        nb == (q * b) / nq,
    ensures
        nb * nq <= q * b,
        q * b - nb * nq < nq,
{
    vstd::arithmetic::div_mod::lemma_fundamental_div_mod(q * b, nq);
    vstd::arithmetic::mul::lemma_mul_nonnegative(q, b);
    vstd::arithmetic::div_mod::lemma_mod_bound(q * b, nq);
}

/// The quotient `(q * b) / d` is at most `b` whenever `d >= q`.
proof fn lemma_pool_quotient_bounded(q: int, b: int, d: int)
    requires
        0 <= q,
        0 <= b,
        0 < d,
        q <= d,
    ensures
        (q * b) / d <= b,
{
    if q == 0 {
        assert(q * b == 0);
        vstd::arithmetic::div_mod::lemma_div_pos_is_pos(0, d);
        vstd::arithmetic::div_mod::lemma_div_is_ordered(0, 0, d);
    } else {
        vstd::arithmetic::mul::lemma_mul_nonnegative(q, b);
        vstd::arithmetic::div_mod::lemma_div_is_ordered_by_denominator(q * b, q, d);
        vstd::arithmetic::div_mod::lemma_div_multiples_vanish(b, q);
    }
}

/// The quotient `(q * b) / d` is at least `b` whenever `0 < d <= q`.
proof fn lemma_pool_quotient_grows(q: int, b: int, d: int)
    requires
        0 <= b,
        0 < d,
        d <= q,
    ensures
        (q * b) / d >= b,
{
    vstd::arithmetic::mul::lemma_mul_nonnegative(q, b);
    vstd::arithmetic::div_mod::lemma_div_is_ordered_by_denominator(q * b, d, q);
    vstd::arithmetic::div_mod::lemma_div_multiples_vanish(b, q);
}

/// Simulates a swap keyed on a quote amount against given reserves and
/// returns the absolute base-reserve change, without touching any state.
pub fn simulate_swapin_internal(
    quote_amount: u128,
    direction: &Direction,
    quote_reserve: u128,
    base_reserve: u128,
) -> (r: Result<u128, ContractError>)
    requires
        swap_in_wf(quote_reserve as int, base_reserve as int, quote_amount as int, *direction),
    ensures
        match r {
            Ok(delta) => {
                &&& *direction != Direction::NOT_SET
                &&& delta == swap_in_delta(
                    quote_reserve as int,
                    base_reserve as int,
                    quote_amount as int,
                    *direction,
                )
                &&& (*direction == Direction::LONG ==> delta <= base_reserve
                    && base_reserve - delta == base_after_in(
                        quote_reserve as int,
                        base_reserve as int,
                        quote_amount as int,
                        *direction,
                    ))
                &&& (*direction == Direction::SHORT ==> base_reserve + delta <= u128::MAX
                    && base_reserve + delta == base_after_in(
                        quote_reserve as int,
                        base_reserve as int,
                        quote_amount as int,
                        *direction,
                    ))
            },
            Err(e) => *direction == Direction::NOT_SET && e == ContractError::InvalidDirection,
        },
{
    let new_quote: u128 = match direction {
        Direction::LONG => quote_reserve + quote_amount,
        Direction::SHORT => quote_reserve - quote_amount,
        Direction::NOT_SET => {
            return Err(ContractError::InvalidDirection);
        },
    };
    proof {
        if *direction == Direction::LONG {
            lemma_pool_quotient_bounded(
                quote_reserve as int,
                base_reserve as int,
                new_quote as int,
            );
        }
    }
    let new_base: u128 = mul_div(quote_reserve, base_reserve, new_quote);
    let base_reserve_delta: u128 = if new_base > base_reserve {
        new_base - base_reserve
    } else {
        base_reserve - new_base
    };
    proof {
        if *direction == Direction::SHORT {
            lemma_pool_quotient_grows(
                quote_reserve as int,
                base_reserve as int,
                new_quote as int,
            );
        }
    }
    Ok(base_reserve_delta)
}

/// Simulates a swap keyed on a base amount against given reserves and
/// returns the absolute quote-reserve change, without touching any state.
pub fn simulate_swapout_internal(
    base_amount: u128,
    direction: &Direction,
    quote_reserve: u128,
    base_reserve: u128,
) -> (r: Result<u128, ContractError>)
    requires
        swap_out_wf(quote_reserve as int, base_reserve as int, base_amount as int, *direction),
    ensures
        match r {
            Ok(delta) => {
                &&& *direction != Direction::NOT_SET
                &&& delta == swap_out_delta(
                    quote_reserve as int,
                    base_reserve as int,
                    base_amount as int,
                    *direction,
                )
                &&& (*direction == Direction::LONG ==> delta <= quote_reserve
                    && quote_reserve - delta == quote_after_out(
                        quote_reserve as int,
                        base_reserve as int,
                        base_amount as int,
                        *direction,
                    ))
                &&& (*direction == Direction::SHORT ==> quote_reserve + delta <= u128::MAX
                    && quote_reserve + delta == quote_after_out(
                        quote_reserve as int,
                        base_reserve as int,
                        base_amount as int,
                        *direction,
                    ))
            },
            Err(e) => *direction == Direction::NOT_SET && e == ContractError::InvalidDirection,
        },
{
    let new_base: u128 = match direction {
        Direction::LONG => base_reserve + base_amount,
        Direction::SHORT => base_reserve - base_amount,
        Direction::NOT_SET => {
            return Err(ContractError::InvalidDirection);
        },
    };
    proof {
        assert(quote_reserve as int * base_reserve as int == base_reserve as int
            * quote_reserve as int);
        if *direction == Direction::LONG {
            lemma_pool_quotient_bounded(
                base_reserve as int,
                quote_reserve as int,
                new_base as int,
            );
        }
    }
    let new_quote: u128 = mul_div(quote_reserve, base_reserve, new_base);
    let quote_reserve_delta: u128 = if new_quote > quote_reserve {
        new_quote - quote_reserve
    } else {
        quote_reserve - new_quote
    };
    proof {
        if *direction == Direction::SHORT {
            lemma_pool_quotient_grows(
                base_reserve as int,
                quote_reserve as int,
                new_base as int,
            );
        }
    }
    Ok(quote_reserve_delta)
}

/// Simulates a swap keyed on a quote amount against the current reserves.
pub fn simulate_swapin(amm: &Amm, quote_amount: u128, direction: &Direction) -> (r: Result<
    u128,
    ContractError,
>)
    requires
        swap_in_wf(
            amm.state.quote_asset_reserve as int,
            amm.state.base_asset_reserve as int,
            quote_amount as int,
            *direction,
        ),
    ensures
        match r {
            Ok(delta) => *direction != Direction::NOT_SET && delta == swap_in_delta(
                amm.state.quote_asset_reserve as int,
                amm.state.base_asset_reserve as int,
                quote_amount as int,
                *direction,
            ),
            Err(e) => *direction == Direction::NOT_SET && e == ContractError::InvalidDirection,
        },
{
    simulate_swapin_internal(
        quote_amount,
        direction,
        amm.state.quote_asset_reserve,
        amm.state.base_asset_reserve,
    )
}

/// Simulates a swap keyed on a base amount against the current reserves.
pub fn simulate_swapout(amm: &Amm, base_amount: u128, direction: &Direction) -> (r: Result<
    u128,
    ContractError,
>)
    requires
        swap_out_wf(
            amm.state.quote_asset_reserve as int,
            amm.state.base_asset_reserve as int,
            base_amount as int,
            *direction,
        ),
    ensures
        match r {
            Ok(delta) => *direction != Direction::NOT_SET && delta == swap_out_delta(
                amm.state.quote_asset_reserve as int,
                amm.state.base_asset_reserve as int,
                base_amount as int,
                *direction,
            ),
            Err(e) => *direction == Direction::NOT_SET && e == ContractError::InvalidDirection,
        },
{
    simulate_swapout_internal(
        base_amount,
        direction,
        amm.state.quote_asset_reserve,
        amm.state.base_asset_reserve,
    )
}

/// The signed base-reserve change recorded in the swap log by a swap keyed
/// on a quote amount, truncated to 64 bits: a LONG open drains the base
/// reserve, so its delta is negative; a SHORT open feeds it, so its delta
/// is positive.
pub open spec fn swap_in_log_delta(base_delta: int, dir: Direction) -> int {
    match dir {
        Direction::LONG => crate::arith::wrap_neg_i64_spec(
            crate::arith::trunc_i64_spec(base_delta),
        ),
        Direction::SHORT => crate::arith::trunc_i64_spec(base_delta),
        Direction::NOT_SET => 0,
    }
}

/// The signed base-reserve change recorded in the swap log by a swap keyed
/// on a base amount, truncated to 64 bits: closing a LONG hands base back
/// to the pool, so its delta is positive; closing a SHORT buys base out of
/// it, so its delta is negative.
pub open spec fn swap_out_log_delta(base_amount: int, dir: Direction) -> int {
    match dir {
        Direction::LONG => crate::arith::trunc_i64_spec(base_amount),
        Direction::SHORT => crate::arith::wrap_neg_i64_spec(
            crate::arith::trunc_i64_spec(base_amount),
        ),
        Direction::NOT_SET => 0,
    }
}

/// Appends one row to the swap log.
fn create_snapshots(
    snapshots: &mut MarketSnapshots,
    base_asset_reserve: u128,
    quote_asset_reserve: u128,
    base_delta: i64,
    timestamp: u64,
)
    ensures
        final(snapshots).snapshots@ == old(snapshots).snapshots@.push(
            SnapshotItem { base_asset_reserve, quote_asset_reserve, base_delta, timestamp },
        ),
{
    snapshots.snapshots.push(
        SnapshotItem { base_asset_reserve, quote_asset_reserve, base_delta, timestamp },
    );
}

/// Applies a swap keyed on a quote amount: a LONG adds the quote amount to
/// the quote reserve, a SHORT removes it; the base reserve becomes the
/// constant product divided by the new quote reserve; and one row is
/// appended to the swap log. The product of the reserves is preserved up to
/// the rounding loss of the division, which is below one unit of the new
/// quote reserve.
pub fn swap_in(
    amm: &mut Amm,
    quote_asset_amount: u128,
    direction: &Direction,
    timestamp: u64,
) -> (r: Result<(), ContractError>)
    requires
        swap_in_wf(
            old(amm).state.quote_asset_reserve as int,
            old(amm).state.base_asset_reserve as int,
            quote_asset_amount as int,
            *direction,
        ),
    ensures
        match r {
            Ok(()) => {
                let q = old(amm).state.quote_asset_reserve as int;
                let b = old(amm).state.base_asset_reserve as int;
                let a = quote_asset_amount as int;
                let nq = final(amm).state.quote_asset_reserve as int;
                let nb = final(amm).state.base_asset_reserve as int;
                &&& *direction != Direction::NOT_SET
                &&& nq == quote_after_in(q, a, *direction)
                &&& nb == base_after_in(q, b, a, *direction)
                &&& nb * nq <= q * b
                &&& q * b - nb * nq < nq
                &&& final(amm).state.funding_period == old(amm).state.funding_period
                &&& final(amm).state.aggregated_funding == old(amm).state.aggregated_funding
                &&& final(amm).state.funding_rate == old(amm).state.funding_rate
                &&& final(amm).config == old(amm).config
                &&& final(amm).snapshots.snapshots@ == old(amm).snapshots.snapshots@.push(
                    SnapshotItem {
                        base_asset_reserve: final(amm).state.base_asset_reserve,
                        quote_asset_reserve: final(amm).state.quote_asset_reserve,
                        base_delta: swap_in_log_delta(
                            swap_in_delta(q, b, a, *direction),
                            *direction,
                        ) as i64,
                        timestamp,
                    },
                )
            },
            Err(e) => {
                &&& *direction == Direction::NOT_SET
                &&& e == ContractError::InvalidDirection
                &&& *final(amm) == *old(amm)
            },
        },
{
    let quote_reserve: u128 = amm.state.quote_asset_reserve;
    let base_reserve: u128 = amm.state.base_asset_reserve;
    let base_amount: u128 = match simulate_swapin_internal(
        quote_asset_amount,
        direction,
        quote_reserve,
        base_reserve,
    ) {
        Ok(v) => v,
        Err(e) => {
            return Err(e);
        },
    };
    match direction {
        Direction::LONG => {
            amm.state.quote_asset_reserve = quote_reserve + quote_asset_amount;
            amm.state.base_asset_reserve = base_reserve - base_amount;
            let delta: i64 = crate::arith::wrap_neg_i64(crate::arith::trunc_to_i64(base_amount));
            create_snapshots(
                &mut amm.snapshots,
                amm.state.base_asset_reserve,
                amm.state.quote_asset_reserve,
                delta,
                timestamp,
            );
        },
        Direction::SHORT => {
            amm.state.base_asset_reserve = base_reserve + base_amount;
            amm.state.quote_asset_reserve = quote_reserve - quote_asset_amount;
            let delta: i64 = crate::arith::trunc_to_i64(base_amount);
            create_snapshots(
                &mut amm.snapshots,
                amm.state.base_asset_reserve,
                amm.state.quote_asset_reserve,
                delta,
                timestamp,
            );
        },
        Direction::NOT_SET => {
            return Err(ContractError::InvalidDirection);
        },
    }
    proof {
        lemma_constant_product_preserved(
            old(amm).state.quote_asset_reserve as int,
            old(amm).state.base_asset_reserve as int,
            amm.state.quote_asset_reserve as int,
            amm.state.base_asset_reserve as int,
        );
    }
    Ok(())
}

/// Applies a swap keyed on a base amount, the unwinding counterpart of
/// [`swap_in`]: a LONG hands its base back to the pool, a SHORT buys its
/// borrowed base back out of it; the quote reserve becomes the constant
/// product divided by the new base reserve; and one row is appended to the
/// swap log.
pub fn swap_out(
    amm: &mut Amm,
    base_asset_amount: u128,
    direction: &Direction,
    timestamp: u64,
) -> (r: Result<(), ContractError>)
    requires
        swap_out_wf(
            old(amm).state.quote_asset_reserve as int,
            old(amm).state.base_asset_reserve as int,
            base_asset_amount as int,
            *direction,
        ),
    ensures
        match r {
            Ok(()) => {
                let q = old(amm).state.quote_asset_reserve as int;
                let b = old(amm).state.base_asset_reserve as int;
                let a = base_asset_amount as int;
                let nq = final(amm).state.quote_asset_reserve as int;
                let nb = final(amm).state.base_asset_reserve as int;
                &&& *direction != Direction::NOT_SET
                &&& nb == base_after_out(b, a, *direction)
                &&& nq == quote_after_out(q, b, a, *direction)
                &&& nq * nb <= q * b
                &&& q * b - nq * nb < nb
                &&& final(amm).state.funding_period == old(amm).state.funding_period
                &&& final(amm).state.aggregated_funding == old(amm).state.aggregated_funding
                &&& final(amm).state.funding_rate == old(amm).state.funding_rate
                &&& final(amm).config == old(amm).config
                &&& final(amm).snapshots.snapshots@ == old(amm).snapshots.snapshots@.push(
                    SnapshotItem {
                        base_asset_reserve: final(amm).state.base_asset_reserve,
                        quote_asset_reserve: final(amm).state.quote_asset_reserve,
                        base_delta: swap_out_log_delta(a, *direction) as i64,
                        timestamp,
                    },
                )
            },
            Err(e) => {
                &&& *direction == Direction::NOT_SET
                &&& e == ContractError::InvalidDirection
                &&& *final(amm) == *old(amm)
            },
        },
{
    let quote_reserve: u128 = amm.state.quote_asset_reserve;
    let base_reserve: u128 = amm.state.base_asset_reserve;
    let quote_amount: u128 = match simulate_swapout_internal(
        base_asset_amount,
        direction,
        quote_reserve,
        base_reserve,
    ) {
        Ok(v) => v,
        Err(e) => {
            return Err(e);
        },
    };
    match direction {
        Direction::LONG => {
            amm.state.base_asset_reserve = base_reserve + base_asset_amount;
            amm.state.quote_asset_reserve = quote_reserve - quote_amount;
        },
        Direction::SHORT => {
            amm.state.quote_asset_reserve = quote_reserve + quote_amount;
            amm.state.base_asset_reserve = base_reserve - base_asset_amount;
        },
        Direction::NOT_SET => {
            return Err(ContractError::InvalidDirection);
        },
    }
    let delta: i64 = match direction {
        Direction::LONG => crate::arith::trunc_to_i64(base_asset_amount),
        Direction::SHORT => crate::arith::wrap_neg_i64(
            crate::arith::trunc_to_i64(base_asset_amount),
        ),
        Direction::NOT_SET => {
            return Err(ContractError::InvalidDirection);
        },
    };
    create_snapshots(
        &mut amm.snapshots,
        amm.state.base_asset_reserve,
        amm.state.quote_asset_reserve,
        delta,
        timestamp,
    );
    proof {
        assert(old(amm).state.quote_asset_reserve as int * old(amm).state.base_asset_reserve as int
            == old(amm).state.base_asset_reserve as int
            * old(amm).state.quote_asset_reserve as int);
        lemma_constant_product_preserved(
            old(amm).state.base_asset_reserve as int,
            old(amm).state.quote_asset_reserve as int,
            amm.state.base_asset_reserve as int,
            amm.state.quote_asset_reserve as int,
        );
    }
    Ok(())
}

/// The pool's own price of the base asset in quote terms (fixed-point raw):
/// the quote reserve divided by the base reserve.
pub open spec fn mark_price_spec(q: int, b: int) -> int {
    (q * DEC_ONE) / b
}

/// The unsigned gap between the oracle's spot price and the pool's mark
/// price (both fixed-point raw).
pub open spec fn premium_spec(spot: int, mark: int) -> int {
    if spot > mark {
        spot - mark
    } else {
        mark - spot
    }
}

/// The side that owes funding: the shorts when spot is above mark, the
/// longs otherwise.
pub open spec fn who_pays_spec(spot: int, mark: int) -> WhoPays {
    if spot > mark {
        WhoPays::SHORT
    } else {
        WhoPays::LONG
    }
}

/// The premium scaled to one funding period: premium times the period
/// length over the length of a day.
pub open spec fn premium_fraction_spec(premium: int, funding_period: int) -> int {
    (premium * funding_period) / (MILLIS_PER_DAY as int)
}

/// The cumulative funding accumulator after one settlement: it falls when
/// the shorts pay and rises when the longs pay.
pub open spec fn aggregated_after_settle(aggregated: int, fraction: int, who: WhoPays) -> int {
    match who {
        WhoPays::SHORT => aggregated - fraction,
        WhoPays::LONG => aggregated + fraction,
    }
}

/// The inputs on which a settlement neither overflows nor divides by zero.
pub open spec fn settle_wf(st: State, spot: int) -> bool {
    let mark = mark_price_spec(st.quote_asset_reserve as int, st.base_asset_reserve as int);
    let fraction = premium_fraction_spec(premium_spec(spot, mark), st.funding_period as int);
    &&& st.base_asset_reserve > 0
    &&& mark <= u128::MAX
    &&& fraction <= u128::MAX
    &&& (who_pays_spec(spot, mark) == WhoPays::SHORT ==> fraction
        <= st.aggregated_funding as int)
    &&& (who_pays_spec(spot, mark) == WhoPays::LONG ==> st.aggregated_funding as int + fraction
        <= u128::MAX)
    &&& spot > 0
    &&& (fraction * DEC_ONE) / spot <= u128::MAX
}

/// The pool's mark price, quote reserve over base reserve (fixed-point raw).
pub fn get_market_price(amm: &Amm) -> (r: u128)
    requires
        amm.state.base_asset_reserve > 0,
        mark_price_spec(
            amm.state.quote_asset_reserve as int,
            amm.state.base_asset_reserve as int,
        ) <= u128::MAX,
    ensures
        r == mark_price_spec(
            amm.state.quote_asset_reserve as int,
            amm.state.base_asset_reserve as int,
        ),
{
    mul_div(amm.state.quote_asset_reserve, DEC_ONE, amm.state.base_asset_reserve)
}

/// Settles one funding period. Only the paired ledger contract may call
/// this; any other sender is refused. The gap between the oracle spot price
/// (passed in, fixed-point raw) and the pool's mark price, scaled to the
/// funding period, is folded into the cumulative accumulator — downward
/// when the shorts pay, upward when the longs pay — and the settled rate,
/// the fraction divided by the spot price, is stored for reporting. No
/// funds move here; the ledger realizes funding lazily per position.
pub fn settle_funding(amm: &mut Amm, sender: &String, spot_price: u128) -> (r: Result<
    (),
    ContractError,
>)
    requires
        sender@ == old(amm).config.bank_addr@ ==> settle_wf(old(amm).state, spot_price as int),
    ensures
        match r {
            Ok(()) => {
                let q = old(amm).state.quote_asset_reserve as int;
                let b = old(amm).state.base_asset_reserve as int;
                let mark = mark_price_spec(q, b);
                let fraction = premium_fraction_spec(
                    premium_spec(spot_price as int, mark),
                    old(amm).state.funding_period as int,
                );
                &&& sender@ == old(amm).config.bank_addr@
                &&& final(amm).state.aggregated_funding == aggregated_after_settle(
                    old(amm).state.aggregated_funding as int,
                    fraction,
                    who_pays_spec(spot_price as int, mark),
                )
                &&& final(amm).state.funding_rate == (Funding {
                    amount: ((fraction * DEC_ONE) / spot_price as int) as u128,
                    who_pays: who_pays_spec(spot_price as int, mark),
                })
                &&& final(amm).state.quote_asset_reserve == old(amm).state.quote_asset_reserve
                &&& final(amm).state.base_asset_reserve == old(amm).state.base_asset_reserve
                &&& final(amm).state.funding_period == old(amm).state.funding_period
                &&& final(amm).config == old(amm).config
                &&& final(amm).snapshots.snapshots@ == old(amm).snapshots.snapshots@
            },
            Err(e) => {
                &&& sender@ != old(amm).config.bank_addr@
                &&& e == ContractError::Unauthorized
                &&& *final(amm) == *old(amm)
            },
        },
{
    if !(*sender == amm.config.bank_addr) {
        return Err(ContractError::Unauthorized);
    }
    let mark_price: u128 = get_market_price(amm);
    let (premium, who_pays): (u128, WhoPays) = if spot_price > mark_price {
        (spot_price - mark_price, WhoPays::SHORT)
    } else {
        (mark_price - spot_price, WhoPays::LONG)
    };
    let premium_fraction: u128 = mul_div(premium, amm.state.funding_period, MILLIS_PER_DAY);
    amm.state.aggregated_funding = match who_pays {
        WhoPays::SHORT => amm.state.aggregated_funding - premium_fraction,
        WhoPays::LONG => amm.state.aggregated_funding + premium_fraction,
    };
    amm.state.funding_rate = Funding {
        amount: mul_div(premium_fraction, DEC_ONE, spot_price),
        who_pays,
    };
    Ok(())
}

/// Creates a market: reserves as given, the funding period at its fixed
/// eight hours, the cumulative funding accumulator at its baseline, a zero
/// funding rate charged to the longs, and a swap log holding the one
/// initial row.
pub fn instantiate(
    contract_addr: String,
    bank_addr: String,
    stable_denom: String,
    init_base_reserve: u128,
    init_quote_reserve: u128,
    timestamp: u64,
) -> (amm: Amm)
    ensures
        amm.config.contract_addr@ == contract_addr@,
        amm.config.bank_addr@ == bank_addr@,
        amm.config.stable_denom@ == stable_denom@,
        amm.config.oracle_type == OracleType::NATIVE,
        amm.state == (State {
            quote_asset_reserve: init_quote_reserve,
            base_asset_reserve: init_base_reserve,
            funding_period: FUNDING_PERIOD_MILLIS,
            aggregated_funding: FUNDING_BASELINE,
            funding_rate: Funding { amount: 0, who_pays: WhoPays::LONG },
        }),
        amm.snapshots.snapshots@ == Seq::<SnapshotItem>::empty().push(
            SnapshotItem {
                base_asset_reserve: init_base_reserve,
                quote_asset_reserve: init_quote_reserve,
                base_delta: 0i64,
                timestamp,
            },
        ),
{
    let config = Config {
        contract_addr,
        bank_addr,
        stable_denom,
        oracle_type: OracleType::NATIVE,
        base_denom: "uluna".to_owned(),
    };
    let state = State {
        quote_asset_reserve: init_quote_reserve,
        base_asset_reserve: init_base_reserve,
        funding_period: FUNDING_PERIOD_MILLIS,
        aggregated_funding: FUNDING_BASELINE,
        funding_rate: Funding { amount: 0, who_pays: WhoPays::LONG },
    };
    let mut snapshot_rows: Vec<SnapshotItem> = Vec::new();
    snapshot_rows.push(
        SnapshotItem {
            base_asset_reserve: init_base_reserve,
            quote_asset_reserve: init_quote_reserve,
            base_delta: 0i64,
            timestamp,
        },
    );
    Amm { config, state, snapshots: MarketSnapshots { snapshots: snapshot_rows } }
}

/// The whole swap log, oldest row first.
pub fn get_market_snapshots(amm: &Amm) -> (r: &MarketSnapshots)
    ensures
        r.snapshots@ == amm.snapshots.snapshots@,
{
    &amm.snapshots
}

/// A market's externally visible state: reserves, cumulative funding, the
/// settled rate, and the two prices.
#[derive(Clone, Copy, Debug, PartialEq, Eq, Structural)]
pub struct StateResponse {
    pub base_asset_reserve: u128,
    pub quote_asset_reserve: u128,
    pub funding_premium_cumulative: u128,
    pub funding_fee: Funding,
    pub market_price: u128,
    pub underlying_price: u128,
}

/// A market's externally visible configuration.
#[derive(Clone, Debug)]
pub struct ConfigResponse {
    pub contract_addr: String,
    pub bank_addr: String,
    pub stable_denom: String,
}

/// Assembles the state response; the oracle's spot price is passed in by
/// the caller that queried it.
pub fn query_state(amm: &Amm, underlying_price: u128) -> (r: StateResponse)
    requires
        amm.state.base_asset_reserve > 0,
        mark_price_spec(
            amm.state.quote_asset_reserve as int,
            amm.state.base_asset_reserve as int,
        ) <= u128::MAX,
    ensures
        r == (StateResponse {
            base_asset_reserve: amm.state.base_asset_reserve,
            quote_asset_reserve: amm.state.quote_asset_reserve,
            funding_premium_cumulative: amm.state.aggregated_funding,
            funding_fee: amm.state.funding_rate,
            market_price: mark_price_spec(
                amm.state.quote_asset_reserve as int,
                amm.state.base_asset_reserve as int,
            ) as u128,
            underlying_price,
        }),
{
    StateResponse {
        base_asset_reserve: amm.state.base_asset_reserve,
        quote_asset_reserve: amm.state.quote_asset_reserve,
        funding_premium_cumulative: amm.state.aggregated_funding,
        funding_fee: amm.state.funding_rate,
        market_price: get_market_price(amm),
        underlying_price,
    }
}

/// Assembles the configuration response.
pub fn query_config(amm: &Amm) -> (r: ConfigResponse)
    ensures
        r.contract_addr@ == amm.config.contract_addr@,
        r.bank_addr@ == amm.config.bank_addr@,
        r.stable_denom@ == amm.config.stable_denom@,
{
    ConfigResponse {
        contract_addr: amm.config.contract_addr.clone(),
        bank_addr: amm.config.bank_addr.clone(),
        stable_denom: amm.config.stable_denom.clone(),
    }
}

} // verus!
