//! The margin ledger: per-user, per-market position records, per-market
//! aggregate records, and the deposit, open, close, liquidate and funding
//! reconciliation transitions over them.
//!
//! Values obtained from collaborating contracts — the simulated swap results
//! of the market maker, the money market's yield index and exchange rate, the
//! current funding payer — enter every transition as plain arguments; the
//! transition is verified for every value they may take.

use vstd::prelude::*;

use crate::arith::{mul_div, safe_sub_spec, safe_subtract_min_zero, DEC_ONE};
use crate::error::ContractError;
use crate::vamm::WhoPays;

verus! {

/// The side of a position. `NOT_SET` is both "never opened" and "currently
/// closed": such a record only holds idle margin.
#[allow(non_camel_case_types)]
#[derive(Clone, Copy, Debug, PartialEq, Eq, Structural)]
pub enum Direction {
    NOT_SET,
    SHORT,
    LONG,
}

/// Sign of a settled funding amount, from the position holder's standpoint.
#[derive(Clone, Copy, Debug, PartialEq, Eq, Structural)]
pub enum Sign {
    Positive,
    Negative,
}

/// Hook message carried by a token transfer into the ledger.
#[derive(Clone, Copy, Debug, PartialEq, Eq, Structural)]
pub enum Cw20HookMsg {
    WithdrawStable {},
}

/// Funding realized against a position, as an unsigned amount and a sign.
#[derive(Clone, Copy, Debug, PartialEq, Eq, Structural)]
pub struct FundingResponse {
    pub amount: u128,
    pub sign: Sign,
}

/// One denominated amount attached to a call.
#[derive(Clone, Debug)]
pub struct Coin {
    pub denom: String,
    pub amount: u128,
}

/// Immutable configuration of the ledger. The two ratios are fixed-point raw
/// values and are at most `DEC_ONE` (they are fractions of one).
#[derive(Clone, Debug)]
pub struct Config {
    pub contract_addr: String,
    pub owner_addr: String,
    pub anchor_addr: String,
    pub stable_denom: String,
    pub liquidation_ratio: u128,
    pub liquidation_reward: u128,
}

/// One user's stake in one market. Amounts are `u128`; the three
/// `last_cumulative_*` fields are fixed-point snapshots of the market's
/// accumulators taken when the position was opened.
#[allow(non_snake_case)]
#[derive(Clone, Copy, Debug, PartialEq, Eq, Structural)]
pub struct Position {
    pub margin: u128,
    pub direction: Direction,
    pub openingValue: u128,
    pub positionSize: u128,
    pub last_cumulative_funding: u128,
    pub last_cumulative_long_rewards: u128,
    pub last_cumulative_short_rewards: u128,
}

/// The ledger's aggregate record for one registered market.
#[derive(Clone, Debug)]
pub struct Market {
    pub contract_addr: String,
    pub cumulative_funding_premium: u128,
    pub cumulative_long_rewards: u128,
    pub cumulative_short_rewards: u128,
    pub total_long_margin: u128,
    pub total_short_margin: u128,
    pub total_margin: u128,
    pub last_anchor_index: u128,
}

/// One position record together with its composite key.
#[derive(Clone, Debug)]
pub struct PositionEntry {
    pub market_addr: String,
    pub user_addr: String,
    pub position: Position,
}

/// The whole ledger: configuration, one record per registered market, and one
/// record per (market, user) pair that ever deposited.
#[derive(Clone, Debug)]
pub struct Bank {
    pub config: Config,
    pub markets: Vec<Market>,
    pub positions: Vec<PositionEntry>,
}

/// The closed state a position returns to: no side, nothing at stake.
pub open spec fn empty_position() -> Position {
    Position {
        margin: 0,
        direction: Direction::NOT_SET,
        openingValue: 0,
        positionSize: 0,
        last_cumulative_funding: 0,
        last_cumulative_long_rewards: 0,
        last_cumulative_short_rewards: 0,
    }
}

/// A position with no side holds nothing but idle margin.
pub open spec fn position_ok(p: Position) -> bool {
    p.direction == Direction::NOT_SET ==> p.openingValue == 0 && p.positionSize == 0
}

/// The margin allocated to a market is exactly the margin of its two sides.
pub open spec fn market_totals_ok(m: Market) -> bool {
    m.total_margin == m.total_long_margin + m.total_short_margin
}

/// Whether some market in the registry is keyed by the given address.
pub open spec fn contains_market(markets: Seq<Market>, addr: Seq<char>) -> bool {
    exists|i: int| 0 <= i < markets.len() && markets[i].contract_addr@ == addr
}

/// Whether the entry carries the given (market, user) composite key.
pub open spec fn entry_key_is(e: PositionEntry, market: Seq<char>, user: Seq<char>) -> bool {
    e.market_addr@ == market && e.user_addr@ == user
}

/// Whether some entry in the registry carries the given composite key.
pub open spec fn contains_position(
    entries: Seq<PositionEntry>,
    market: Seq<char>,
    user: Seq<char>,
) -> bool {
    exists|i: int| 0 <= i < entries.len() && entry_key_is(entries[i], market, user)
}

impl Bank {
    /// No two markets share an address.
    pub open spec fn markets_unique(self) -> bool {
        forall|i: int, j: int|
            0 <= i < j < self.markets@.len() ==> self.markets@[i].contract_addr@
                != self.markets@[j].contract_addr@
    }

    /// No two position entries share a composite key.
    pub open spec fn positions_unique(self) -> bool {
        forall|i: int, j: int|
            0 <= i < j < self.positions@.len() ==> !(self.positions@[i].market_addr@
                == self.positions@[j].market_addr@ && self.positions@[i].user_addr@
                == self.positions@[j].user_addr@)
    }

    /// The ledger's invariant: unique registry keys, both configured ratios
    /// fractions of one, every market's aggregate totals consistent, and
    /// every sideless position empty.
    pub open spec fn wf(self) -> bool {
        &&& self.markets_unique()
        &&& self.positions_unique()
        &&& self.config.liquidation_ratio <= DEC_ONE
        &&& self.config.liquidation_reward <= DEC_ONE
        &&& forall|i: int|
            0 <= i < self.markets@.len() ==> market_totals_ok(#[trigger] self.markets@[i])
        &&& forall|i: int|
            0 <= i < self.positions@.len() ==> position_ok(
                (#[trigger] self.positions@[i]).position,
            )
    }
}

/// Finds the market registered under the given address.
fn find_market(markets: &Vec<Market>, addr: &String) -> (r: Option<usize>)
    ensures
        match r {
            Some(i) => i < markets@.len() && markets@[i as int].contract_addr@ == addr@,
            None => !contains_market(markets@, addr@),
        },
{
    let mut i: usize = 0;
    while i < markets.len()
        invariant
            i <= markets@.len(),
            forall|k: int| 0 <= k < i ==> markets@[k].contract_addr@ != addr@,
        decreases markets@.len() - i,
    {
        if markets[i].contract_addr == *addr {
            return Some(i);
        }
        i = i + 1;
    }
    None
}

/// Finds the position entry with the given (market, user) key.
fn find_position(entries: &Vec<PositionEntry>, market: &String, user: &String) -> (r: Option<
    usize,
>)
    ensures
        match r {
            Some(i) => i < entries@.len() && entry_key_is(entries@[i as int], market@, user@),
            None => !contains_position(entries@, market@, user@),
        },
{
    let mut i: usize = 0;
    while i < entries.len()
        invariant
            i <= entries@.len(),
            forall|k: int| 0 <= k < i ==> !entry_key_is(entries@[k], market@, user@),
        decreases entries@.len() - i,
    {
        if entries[i].market_addr == *market && entries[i].user_addr == *user {
            return Some(i);
        }
        i = i + 1;
    }
    None
}

/// Creates the ledger with the given configuration and empty registries.
/// The two ratios are fixed-point fractions of one.
pub fn instantiate(
    contract_addr: String,
    owner_addr: String,
    anchor_addr: String,
    stable_denom: String,
    liquidation_ratio: u128,
    liquidation_reward: u128,
) -> (bank: Bank)
    requires
        liquidation_ratio <= DEC_ONE,
        liquidation_reward <= DEC_ONE,
    ensures
        bank.config.contract_addr@ == contract_addr@,
        bank.config.owner_addr@ == owner_addr@,
        bank.config.anchor_addr@ == anchor_addr@,
        bank.config.stable_denom@ == stable_denom@,
        bank.config.liquidation_ratio == liquidation_ratio,
        bank.config.liquidation_reward == liquidation_reward,
        bank.markets@ =~= Seq::<Market>::empty(),
        bank.positions@ =~= Seq::<PositionEntry>::empty(),
        bank.wf(),
{
    Bank {
        config: Config {
            contract_addr,
            owner_addr,
            anchor_addr,
            stable_denom,
            liquidation_ratio,
            liquidation_reward,
        },
        markets: Vec::new(),
        positions: Vec::new(),
    }
}

/// Registers a market under its contract address; fails if that address is
/// already taken. The caller passes the two opening snapshots it queried:
/// the market's cumulative funding premium and the money market's current
/// yield index.
pub fn register_market(
    bank: &mut Bank,
    contract_addr: String,
    funding_premium_cumulative: u128,
    anchor_index: u128,
) -> (r: Result<(), ContractError>)
    requires
        old(bank).wf(),
    ensures
        final(bank).wf(),
        match r {
            Ok(()) => {
                &&& !contains_market(old(bank).markets@, contract_addr@)
                &&& final(bank).markets@.len() == old(bank).markets@.len() + 1
                &&& final(bank).markets@ == old(bank).markets@.push(
                    final(bank).markets@.last(),
                )
                &&& final(bank).markets@.last().contract_addr@ == contract_addr@
                &&& final(bank).markets@.last().cumulative_funding_premium
                    == funding_premium_cumulative
                &&& final(bank).markets@.last().cumulative_long_rewards == 0
                &&& final(bank).markets@.last().cumulative_short_rewards == 0
                &&& final(bank).markets@.last().total_long_margin == 0
                &&& final(bank).markets@.last().total_short_margin == 0
                &&& final(bank).markets@.last().total_margin == 0
                &&& final(bank).markets@.last().last_anchor_index == anchor_index
                &&& final(bank).positions@ == old(bank).positions@
                &&& final(bank).config == old(bank).config
            },
            Err(e) => {
                &&& e == ContractError::MarketAlreadyExists
                &&& contains_market(old(bank).markets@, contract_addr@)
                &&& *final(bank) == *old(bank)
            },
        },
{
    match find_market(&bank.markets, &contract_addr) {
        Some(_) => Err(ContractError::MarketAlreadyExists),
        None => {
            bank.markets.push(
                Market {
                    contract_addr,
                    cumulative_funding_premium: funding_premium_cumulative,
                    cumulative_long_rewards: 0,
                    cumulative_short_rewards: 0,
                    total_long_margin: 0,
                    total_short_margin: 0,
                    total_margin: 0,
                    last_anchor_index: anchor_index,
                },
            );
            Ok(())
        },
    }
}

/// The unsigned gap between the market's cumulative funding premium and the
/// snapshot the position took when it opened (fixed-point raw).
pub open spec fn funding_diff_spec(m: Market, p: Position) -> int {
    if m.cumulative_funding_premium > p.last_cumulative_funding {
        m.cumulative_funding_premium - p.last_cumulative_funding
    } else {
        p.last_cumulative_funding - m.cumulative_funding_premium
    }
}

/// The funding owed against the position, in collateral units: the premium
/// gap times the position size.
pub open spec fn funding_amount_spec(m: Market, p: Position) -> int {
    (funding_diff_spec(m, p) * p.positionSize) / (DEC_ONE as int)
}

/// Whether the holder pays the funding (negative) or receives it
/// (positive): a LONG pays when the cumulative premium rose since it
/// opened, a SHORT when it fell.
pub open spec fn funding_sign_spec(m: Market, p: Position) -> Sign {
    let rose = m.cumulative_funding_premium > p.last_cumulative_funding;
    match p.direction {
        Direction::LONG => if rose {
            Sign::Negative
        } else {
            Sign::Positive
        },
        Direction::SHORT => if rose {
            Sign::Positive
        } else {
            Sign::Negative
        },
        Direction::NOT_SET => Sign::Positive,
    }
}

/// The growth of the position's side reward accumulator since it opened
/// (fixed-point raw).
pub open spec fn reward_diff_spec(m: Market, p: Position) -> int {
    match p.direction {
        Direction::LONG => m.cumulative_long_rewards - p.last_cumulative_long_rewards,
        Direction::SHORT => m.cumulative_short_rewards - p.last_cumulative_short_rewards,
        Direction::NOT_SET => 0,
    }
}

/// The yield subsidy the position receives, in collateral units: the growth
/// of its side's reward accumulator times its margin.
pub open spec fn anchor_help_spec(m: Market, p: Position) -> int {
    (p.margin * reward_diff_spec(m, p)) / (DEC_ONE as int)
}

/// The collateral the holder is owed on close: margin plus the directional
/// value component plus the yield subsidy, plus or minus the funding, each
/// subtraction floored at zero — collateral can never go negative.
pub open spec fn margin_adjusted_spec(m: Market, p: Position, value: int) -> int {
    let rose = m.cumulative_funding_premium > p.last_cumulative_funding;
    let funding = funding_amount_spec(m, p);
    match p.direction {
        Direction::LONG => {
            let with_help = p.margin + value + anchor_help_spec(m, p);
            let with_funding = if rose {
                safe_sub_spec(with_help, funding)
            } else {
                with_help + funding
            };
            safe_sub_spec(with_funding, p.openingValue as int)
        },
        Direction::SHORT => {
            let with_help = p.margin + p.openingValue + anchor_help_spec(m, p);
            let with_funding = if rose {
                with_help + funding
            } else {
                safe_sub_spec(with_help, funding)
            };
            safe_sub_spec(with_funding, value)
        },
        Direction::NOT_SET => 0,
    }
}

/// Margin non-negativity: a position's margin is an unsigned amount, and
/// the settled collateral the engine computes from it can never go
/// negative either — every subtraction in the settlement is floored at
/// zero, so losses can at most consume what is there.
pub proof fn lemma_margin_non_negative(m: Market, p: Position, value: int)
    requires
        value >= 0,
    ensures
        p.margin >= 0,
        margin_adjusted_spec(m, p, value) >= 0,
{
}

/// The signed 64-bit profit-and-loss figure: current value minus opening
/// value for a LONG, the opposite for a SHORT, each value truncated to 64
/// bits and the difference wrapping.
pub open spec fn pnl_spec(p: Position, value: int) -> int {
    match p.direction {
        Direction::LONG => crate::arith::wrap_sub_i64_spec(value, p.openingValue as int),
        Direction::SHORT => crate::arith::wrap_sub_i64_spec(p.openingValue as int, value),
        Direction::NOT_SET => 0,
    }
}

/// The inputs on which the settlement computation neither overflows nor
/// underflows. The reward accumulators may not have moved backwards past
/// the position's snapshots.
pub open spec fn simulate_close_wf(m: Market, p: Position, value: int) -> bool {
    p.direction != Direction::NOT_SET ==> {
        let rose = m.cumulative_funding_premium > p.last_cumulative_funding;
        let funding = funding_amount_spec(m, p);
        &&& funding <= u128::MAX
        &&& reward_diff_spec(m, p) >= 0
        &&& anchor_help_spec(m, p) <= u128::MAX
        &&& (p.direction == Direction::LONG ==> {
            let with_help = p.margin + value + anchor_help_spec(m, p);
            with_help <= u128::MAX && (!rose ==> with_help + funding <= u128::MAX)
        })
        &&& (p.direction == Direction::SHORT ==> {
            let with_help = p.margin + p.openingValue + anchor_help_spec(m, p);
            with_help <= u128::MAX && (rose ==> with_help + funding <= u128::MAX)
        })
    }
}

/// Computes the settlement of a position against its market's stored
/// accumulators and a given unwinding value (the quote value the paired
/// market returns for trading the position's size back): the signed
/// profit-and-loss, the realized funding with its sign, the unwinding value
/// itself, and the collateral owed to the holder. Pure: shared by closing,
/// liquidation and position queries.
pub fn simulate_close(market: &Market, position: &Position, new_position_value: u128) -> (r:
    Result<(i64, FundingResponse, u128, u128), ContractError>)
    requires
        simulate_close_wf(*market, *position, new_position_value as int),
    ensures
        match r {
            Ok(t) => {
                &&& position.direction != Direction::NOT_SET
                &&& t.0 == pnl_spec(*position, new_position_value as int)
                &&& t.1 == (FundingResponse {
                    amount: funding_amount_spec(*market, *position) as u128,
                    sign: funding_sign_spec(*market, *position),
                })
                &&& t.2 == new_position_value
                &&& t.3 == margin_adjusted_spec(*market, *position, new_position_value as int)
            },
            Err(e) => position.direction == Direction::NOT_SET && e
                == ContractError::PositionNotOpen,
        },
{
    if matches!(position.direction, Direction::NOT_SET) {
        return Err(ContractError::PositionNotOpen);
    }
    let rose: bool = market.cumulative_funding_premium > position.last_cumulative_funding;
    let diff: u128 = if rose {
        market.cumulative_funding_premium - position.last_cumulative_funding
    } else {
        position.last_cumulative_funding - market.cumulative_funding_premium
    };
    let funding: u128 = mul_div(diff, position.positionSize, DEC_ONE);
    let reward_diff: u128 = match position.direction {
        Direction::LONG => market.cumulative_long_rewards
            - position.last_cumulative_long_rewards,
        Direction::SHORT => market.cumulative_short_rewards
            - position.last_cumulative_short_rewards,
        Direction::NOT_SET => {
            return Err(ContractError::PositionNotOpen);
        },
    };
    let anchor_help: u128 = mul_div(position.margin, reward_diff, DEC_ONE);
    let (margin_adjusted, sign): (u128, Sign) = match position.direction {
        Direction::LONG => {
            let with_help: u128 = position.margin + new_position_value + anchor_help;
            let (with_funding, sign): (u128, Sign) = if rose {
                (safe_subtract_min_zero(with_help, funding), Sign::Negative)
            } else {
                (with_help + funding, Sign::Positive)
            };
            (safe_subtract_min_zero(with_funding, position.openingValue), sign)
        },
        Direction::SHORT => {
            let with_help: u128 = position.margin + position.openingValue + anchor_help;
            let (with_funding, sign): (u128, Sign) = if rose {
                (with_help + funding, Sign::Positive)
            } else {
                (safe_subtract_min_zero(with_help, funding), Sign::Negative)
            };
            (safe_subtract_min_zero(with_funding, new_position_value), sign)
        },
        Direction::NOT_SET => {
            return Err(ContractError::PositionNotOpen);
        },
    };
    let pnl: i64 = match position.direction {
        Direction::LONG => crate::arith::wrap_sub_to_i64(
            new_position_value,
            position.openingValue,
        ),
        Direction::SHORT => crate::arith::wrap_sub_to_i64(
            position.openingValue,
            new_position_value,
        ),
        Direction::NOT_SET => {
            return Err(ContractError::PositionNotOpen);
        },
    };
    Ok((pnl, FundingResponse { amount: funding, sign }, new_position_value, margin_adjusted))
}

/// The amount of the first attached coin of the given denomination, starting
/// the search at index `i`; zero if none is attached.
pub open spec fn deposit_from(funds: Seq<Coin>, denom: Seq<char>, i: int) -> int
    decreases funds.len() - i,
{
    if i < 0 || i >= funds.len() {
        0
    } else if funds[i].denom@ == denom {
        funds[i].amount as int
    } else {
        deposit_from(funds, denom, i + 1)
    }
}

/// The deposit a call attaches: the amount of the first coin in the
/// configured collateral denomination, zero if there is none.
pub open spec fn deposit_amount_spec(funds: Seq<Coin>, denom: Seq<char>) -> int {
    deposit_from(funds, denom, 0)
}

/// The amount of the first attached coin in the given denomination, zero if
/// none is.
fn attached_deposit(funds: &Vec<Coin>, denom: &String) -> (r: u128)
    ensures
        r == deposit_amount_spec(funds@, denom@),
{
    let mut i: usize = 0;
    while i < funds.len()
        invariant
            i <= funds@.len(),
            deposit_amount_spec(funds@, denom@) == deposit_from(funds@, denom@, i as int),
        decreases funds@.len() - i,
    {
        if funds[i].denom == *denom {
            return funds[i].amount;
        }
        i = i + 1;
    }
    0
}

/// Adds the attached collateral deposit to the caller's margin in the given
/// market, creating the position record lazily on first deposit. No side is
/// opened; the margin sits idle until a position is opened against it. The
/// returned amount is the deposit the caller must forward to the money
/// market for yield.
pub fn add_margin(
    bank: &mut Bank,
    market_addr: &String,
    sender: &String,
    funds: &Vec<Coin>,
) -> (r: Result<u128, ContractError>)
    requires
        old(bank).wf(),
        forall|j: int|
            0 <= j < old(bank).positions@.len() && entry_key_is(
                #[trigger] old(bank).positions@[j],
                market_addr@,
                sender@,
            ) ==> old(bank).positions@[j].position.margin + deposit_amount_spec(
                funds@,
                old(bank).config.stable_denom@,
            ) <= u128::MAX,
    ensures
        final(bank).wf(),
        final(bank).markets@ == old(bank).markets@,
        final(bank).config == old(bank).config,
        match r {
            Ok(deposit) => {
                &&& contains_market(old(bank).markets@, market_addr@)
                &&& deposit == deposit_amount_spec(funds@, old(bank).config.stable_denom@)
                &&& deposit > 0
                &&& if contains_position(old(bank).positions@, market_addr@, sender@) {
                    exists|j: int|
                        0 <= j < old(bank).positions@.len() && entry_key_is(
                            #[trigger] old(bank).positions@[j],
                            market_addr@,
                            sender@,
                        ) && final(bank).positions@ == old(bank).positions@.update(
                            j,
                            PositionEntry {
                                market_addr: old(bank).positions@[j].market_addr,
                                user_addr: old(bank).positions@[j].user_addr,
                                position: Position {
                                    margin: (old(bank).positions@[j].position.margin
                                        + deposit) as u128,
                                    ..old(bank).positions@[j].position
                                },
                            },
                        )
                } else {
                    &&& final(bank).positions@.len() == old(bank).positions@.len() + 1
                    &&& final(bank).positions@ == old(bank).positions@.push(
                        final(bank).positions@.last(),
                    )
                    &&& entry_key_is(final(bank).positions@.last(), market_addr@, sender@)
                    &&& final(bank).positions@.last().position == (Position {
                        margin: deposit,
                        ..empty_position()
                    })
                }
            },
            Err(e) => {
                &&& final(bank).positions@ == old(bank).positions@
                &&& (e == ContractError::MarketNotFound <==> !contains_market(
                    old(bank).markets@,
                    market_addr@,
                ))
                &&& (e == ContractError::InvalidZeroAmount <==> contains_market(
                    old(bank).markets@,
                    market_addr@,
                ) && deposit_amount_spec(funds@, old(bank).config.stable_denom@) == 0)
                &&& (e == ContractError::MarketNotFound || e == ContractError::InvalidZeroAmount)
            },
        },
{
    if find_market(&bank.markets, market_addr).is_none() {
        return Err(ContractError::MarketNotFound);
    }
    let deposit: u128 = attached_deposit(funds, &bank.config.stable_denom);
    if deposit == 0 {
        return Err(ContractError::InvalidZeroAmount);
    }
    match find_position(&bank.positions, market_addr, sender) {
        Some(j) => {
            let entry = &mut bank.positions[j];
            let prior: u128 = entry.position.margin;
            entry.position.margin = prior + deposit;
        },
        None => {
            bank.positions.push(
                PositionEntry {
                    market_addr: market_addr.clone(),
                    user_addr: sender.clone(),
                    position: Position {
                        margin: deposit,
                        direction: Direction::NOT_SET,
                        openingValue: 0,
                        positionSize: 0,
                        last_cumulative_funding: 0,
                        last_cumulative_long_rewards: 0,
                        last_cumulative_short_rewards: 0,
                    },
                },
            );
        },
    }
    Ok(deposit)
}

/// The credit added to the paying side's reward accumulator when the money
/// market's yield index moved from `last_index` to `curr_index`: the index
/// ratio, scaled by the whole pool's margin over the paying side's margin
/// (fixed-point raw).
pub open spec fn reward_increment_spec(
    curr_index: int,
    last_index: int,
    total_margin: int,
    side_margin: int,
) -> int {
    let ratio = (curr_index * DEC_ONE) / last_index;
    let pool_yield = (total_margin * ratio) / (DEC_ONE as int);
    (pool_yield / side_margin) * DEC_ONE
}

/// The two reward accumulators after reconciling against the current yield
/// index: the side that pays funding is credited, and only if it has any
/// margin to credit.
pub open spec fn rewards_after_spec(m: Market, who: WhoPays, curr_index: int) -> (int, int) {
    match who {
        WhoPays::LONG => if m.total_long_margin > 0 {
            (
                m.cumulative_long_rewards + reward_increment_spec(
                    curr_index,
                    m.last_anchor_index as int,
                    m.total_margin as int,
                    m.total_long_margin as int,
                ),
                m.cumulative_short_rewards as int,
            )
        } else {
            (m.cumulative_long_rewards as int, m.cumulative_short_rewards as int)
        },
        WhoPays::SHORT => if m.total_short_margin > 0 {
            (
                m.cumulative_long_rewards as int,
                m.cumulative_short_rewards + reward_increment_spec(
                    curr_index,
                    m.last_anchor_index as int,
                    m.total_margin as int,
                    m.total_short_margin as int,
                ),
            )
        } else {
            (m.cumulative_long_rewards as int, m.cumulative_short_rewards as int)
        },
    }
}

/// The inputs on which the reward reconciliation neither overflows nor
/// divides by zero.
pub open spec fn rewards_wf(m: Market, who: WhoPays, curr_index: int) -> bool {
    let side_margin: int = match who {
        WhoPays::LONG => m.total_long_margin as int,
        WhoPays::SHORT => m.total_short_margin as int,
    };
    let side_cum: int = match who {
        WhoPays::LONG => m.cumulative_long_rewards as int,
        WhoPays::SHORT => m.cumulative_short_rewards as int,
    };
    side_margin > 0 ==> {
        let ratio = (curr_index * DEC_ONE) / m.last_anchor_index as int;
        let pool_yield = (m.total_margin * ratio) / (DEC_ONE as int);
        &&& m.last_anchor_index > 0
        &&& ratio <= u128::MAX
        &&& pool_yield <= u128::MAX
        &&& (pool_yield / side_margin) * DEC_ONE <= u128::MAX
        &&& side_cum + (pool_yield / side_margin) * DEC_ONE <= u128::MAX
    }
}

/// Reconciles the market's reward accumulators against the money market's
/// current yield index and returns the pair (long, short), without writing
/// them back. The side that pays funding — as the paired market's last
/// settlement designated it — is the one credited.
pub fn get_current_anchor_cumulative_rewards(
    market: &Market,
    who_pays: WhoPays,
    curr_anchor_index: u128,
) -> (r: (u128, u128))
    requires
        rewards_wf(*market, who_pays, curr_anchor_index as int),
    ensures
        r.0 == rewards_after_spec(*market, who_pays, curr_anchor_index as int).0,
        r.1 == rewards_after_spec(*market, who_pays, curr_anchor_index as int).1,
{
    let mut cumulative_long_rewards: u128 = market.cumulative_long_rewards;
    let mut cumulative_short_rewards: u128 = market.cumulative_short_rewards;
    match who_pays {
        WhoPays::LONG => {
            if market.total_long_margin > 0 {
                let ratio: u128 = mul_div(curr_anchor_index, DEC_ONE, market.last_anchor_index);
                let pool_yield: u128 = mul_div(market.total_margin, ratio, DEC_ONE);
                let per_unit: u128 = pool_yield / market.total_long_margin;
                cumulative_long_rewards = cumulative_long_rewards + per_unit * DEC_ONE;
            }
        },
        WhoPays::SHORT => {
            if market.total_short_margin > 0 {
                let ratio: u128 = mul_div(curr_anchor_index, DEC_ONE, market.last_anchor_index);
                let pool_yield: u128 = mul_div(market.total_margin, ratio, DEC_ONE);
                let per_unit: u128 = pool_yield / market.total_short_margin;
                cumulative_short_rewards = cumulative_short_rewards + per_unit * DEC_ONE;
            }
        },
    }
    (cumulative_long_rewards, cumulative_short_rewards)
}

/// A market after reward reconciliation: the accumulators credited and the
/// observed yield index remembered; everything else untouched.
pub open spec fn reconciled_market(m: Market, who: WhoPays, curr_index: int) -> Market {
    Market {
        cumulative_long_rewards: rewards_after_spec(m, who, curr_index).0 as u128,
        cumulative_short_rewards: rewards_after_spec(m, who, curr_index).1 as u128,
        last_anchor_index: curr_index as u128,
        ..m
    }
}

/// Writes the reconciled reward accumulators and the current yield index
/// back into the market record.
pub fn update_anchor_rewards(market: &mut Market, who_pays: WhoPays, curr_anchor_index: u128)
    requires
        rewards_wf(*old(market), who_pays, curr_anchor_index as int),
    ensures
        *final(market) == reconciled_market(
            *old(market),
            who_pays,
            curr_anchor_index as int,
        ),
{
    let (cumulative_long_rewards, cumulative_short_rewards): (u128, u128) =
        get_current_anchor_cumulative_rewards(market, who_pays, curr_anchor_index);
    market.cumulative_long_rewards = cumulative_long_rewards;
    market.cumulative_short_rewards = cumulative_short_rewards;
    market.last_anchor_index = curr_anchor_index;
}

/// A reconciled market after a position of the given margin opens on the
/// given side: that side's total and the overall total both grow by the
/// margin.
pub open spec fn market_after_open(
    m: Market,
    direction: Direction,
    margin: u128,
    who: WhoPays,
    curr_index: int,
) -> Market {
    let base = reconciled_market(m, who, curr_index);
    match direction {
        Direction::LONG => Market {
            total_long_margin: (base.total_long_margin + margin) as u128,
            total_margin: (base.total_margin + margin) as u128,
            ..base
        },
        Direction::SHORT => Market {
            total_short_margin: (base.total_short_margin + margin) as u128,
            total_margin: (base.total_margin + margin) as u128,
            ..base
        },
        Direction::NOT_SET => base,
    }
}

/// A position opened on the given side: notional size and base size as the
/// paired market priced them, and the reconciled market's three
/// accumulators snapshotted for later settlement.
pub open spec fn position_after_open(
    reconciled: Market,
    p: Position,
    direction: Direction,
    open_value: u128,
    position_size: u128,
) -> Position {
    Position {
        margin: p.margin,
        direction,
        openingValue: open_value,
        positionSize: position_size,
        last_cumulative_funding: reconciled.cumulative_funding_premium,
        last_cumulative_long_rewards: reconciled.cumulative_long_rewards,
        last_cumulative_short_rewards: reconciled.cumulative_short_rewards,
    }
}

/// The bounds under which opening fits in the aggregate totals.
pub open spec fn open_fits(
    m: Market,
    p: Position,
    direction: Direction,
    who: WhoPays,
    curr_index: int,
) -> bool {
    &&& rewards_wf(m, who, curr_index)
    &&& m.total_margin + p.margin <= u128::MAX
    &&& (direction == Direction::LONG ==> m.total_long_margin + p.margin <= u128::MAX)
    &&& (direction == Direction::SHORT ==> m.total_short_margin + p.margin <= u128::MAX)
}

/// Opens a position: the caller's idle margin takes the given side at the
/// given notional value. The caller passes what it obtained from the
/// collaborators — the base size the paired market simulated for this exact
/// trade, the current funding payer, and the money market's yield index.
/// The market's reward accumulators are reconciled first; then the margin
/// is added to the chosen side's aggregates, and the position snapshots the
/// reconciled accumulators and becomes open. Fails if the caller's position
/// is already open, and on an unset direction.
pub fn open_position(
    bank: &mut Bank,
    market_addr: &String,
    sender: &String,
    direction: Direction,
    open_value: u128,
    position_size: u128,
    who_pays: WhoPays,
    anchor_index: u128,
) -> (r: Result<(), ContractError>)
    requires
        old(bank).wf(),
        forall|i: int, j: int|
            0 <= i < old(bank).markets@.len() && 0 <= j < old(bank).positions@.len()
                && (#[trigger] old(bank).markets@[i]).contract_addr@ == market_addr@
                && entry_key_is(#[trigger] old(bank).positions@[j], market_addr@, sender@)
                ==> open_fits(
                old(bank).markets@[i],
                old(bank).positions@[j].position,
                direction,
                who_pays,
                anchor_index as int,
            ),
    ensures
        final(bank).wf(),
        final(bank).config == old(bank).config,
        (r is Ok) <==> {
            &&& contains_market(old(bank).markets@, market_addr@)
            &&& exists|j: int|
                0 <= j < old(bank).positions@.len() && entry_key_is(
                    #[trigger] old(bank).positions@[j],
                    market_addr@,
                    sender@,
                ) && old(bank).positions@[j].position.direction == Direction::NOT_SET
            &&& direction != Direction::NOT_SET
        },
        match r {
            Ok(()) => exists|i: int, j: int|
                {
                    &&& 0 <= i < old(bank).markets@.len()
                    &&& 0 <= j < old(bank).positions@.len()
                    &&& (#[trigger] old(bank).markets@[i]).contract_addr@ == market_addr@
                    &&& entry_key_is(#[trigger] old(bank).positions@[j], market_addr@, sender@)
                    &&& final(bank).markets@ == old(bank).markets@.update(
                        i,
                        market_after_open(
                            old(bank).markets@[i],
                            direction,
                            old(bank).positions@[j].position.margin,
                            who_pays,
                            anchor_index as int,
                        ),
                    )
                    &&& final(bank).positions@ == old(bank).positions@.update(
                        j,
                        PositionEntry {
                            market_addr: old(bank).positions@[j].market_addr,
                            user_addr: old(bank).positions@[j].user_addr,
                            position: position_after_open(
                                reconciled_market(
                                    old(bank).markets@[i],
                                    who_pays,
                                    anchor_index as int,
                                ),
                                old(bank).positions@[j].position,
                                direction,
                                open_value,
                                position_size,
                            ),
                        },
                    )
                },
            Err(e) => {
                &&& final(bank).markets@ == old(bank).markets@
                &&& final(bank).positions@ == old(bank).positions@
                &&& (e == ContractError::MarketNotFound <==> !contains_market(
                    old(bank).markets@,
                    market_addr@,
                ))
                &&& (e == ContractError::PositionNotFound <==> contains_market(
                    old(bank).markets@,
                    market_addr@,
                ) && !contains_position(old(bank).positions@, market_addr@, sender@))
                &&& (e == ContractError::PositionAlreadyOpen <==> exists|j: int|
                    0 <= j < old(bank).positions@.len() && contains_market(
                        old(bank).markets@,
                        market_addr@,
                    ) && entry_key_is(#[trigger] old(bank).positions@[j], market_addr@, sender@)
                        && old(bank).positions@[j].position.direction != Direction::NOT_SET)
                &&& (e == ContractError::MarketNotFound || e == ContractError::PositionNotFound
                    || e == ContractError::PositionAlreadyOpen || e
                    == ContractError::PositionNotOpen)
            },
        },
{
    let market_idx: usize = match find_market(&bank.markets, market_addr) {
        Some(i) => i,
        None => {
            return Err(ContractError::MarketNotFound);
        },
    };
    let position_idx: usize = match find_position(&bank.positions, market_addr, sender) {
        Some(j) => j,
        None => {
            return Err(ContractError::PositionNotFound);
        },
    };
    if !matches!(bank.positions[position_idx].position.direction, Direction::NOT_SET) {
        return Err(ContractError::PositionAlreadyOpen);
    }
    if matches!(direction, Direction::NOT_SET) {
        return Err(ContractError::PositionNotOpen);
    }
    let margin: u128 = bank.positions[position_idx].position.margin;
    let market = &mut bank.markets[market_idx];
    update_anchor_rewards(market, who_pays, anchor_index);
    match direction {
        Direction::LONG => {
            market.total_long_margin = market.total_long_margin + margin;
            market.total_margin = market.total_margin + margin;
        },
        Direction::SHORT => {
            market.total_short_margin = market.total_short_margin + margin;
            market.total_margin = market.total_margin + margin;
        },
        Direction::NOT_SET => {
            return Err(ContractError::PositionNotOpen);
        },
    }
    let last_cumulative_funding: u128 = bank.markets[market_idx].cumulative_funding_premium;
    let last_cumulative_long_rewards: u128 = bank.markets[market_idx].cumulative_long_rewards;
    let last_cumulative_short_rewards: u128 = bank.markets[market_idx].cumulative_short_rewards;
    let entry = &mut bank.positions[position_idx];
    entry.position = Position {
        margin,
        direction,
        openingValue: open_value,
        positionSize: position_size,
        last_cumulative_funding,
        last_cumulative_long_rewards,
        last_cumulative_short_rewards,
    };
    Ok(())
}

/// What a successful close hands back to the caller, who performs the
/// outbound legs: the unwinding swap on the paired market (side and base
/// size of the closed position), the redemption of the yield claim
/// (`redeem_amount` of the deposit token), and the collateral transfer to
/// the holder (`margin_returned`).
#[derive(Clone, Copy, Debug, PartialEq, Eq, Structural)]
pub struct CloseResponse {
    pub direction: Direction,
    pub position_size: u128,
    pub margin_returned: u128,
    pub redeem_amount: u128,
}

/// A reconciled market after a position of the given margin leaves the
/// given side: that side's total and the overall total both shrink by the
/// margin.
pub open spec fn market_after_close(
    m: Market,
    direction: Direction,
    margin: u128,
    who: WhoPays,
    curr_index: int,
) -> Market {
    let base = reconciled_market(m, who, curr_index);
    match direction {
        Direction::LONG => Market {
            total_long_margin: (base.total_long_margin - margin) as u128,
            total_margin: (base.total_margin - margin) as u128,
            ..base
        },
        Direction::SHORT => Market {
            total_short_margin: (base.total_short_margin - margin) as u128,
            total_margin: (base.total_margin - margin) as u128,
            ..base
        },
        Direction::NOT_SET => base,
    }
}

/// The bounds under which closing fits: the settlement computes, the
/// redemption product fits, the reconciliation computes, and the side
/// aggregates cover the leaving margin.
pub open spec fn close_fits(
    m: Market,
    p: Position,
    value: int,
    exchange_rate: int,
    who: WhoPays,
    curr_index: int,
) -> bool {
    &&& simulate_close_wf(m, p, value)
    &&& (margin_adjusted_spec(m, p, value) * exchange_rate) / (DEC_ONE as int) <= u128::MAX
    &&& rewards_wf(m, who, curr_index)
    &&& p.margin <= m.total_margin
    &&& (p.direction == Direction::LONG ==> p.margin <= m.total_long_margin)
    &&& (p.direction == Direction::SHORT ==> p.margin <= m.total_short_margin)
}

/// Closes the caller's open position: settles it against the market's
/// stored accumulators and the passed-in unwinding value, reconciles the
/// reward accumulators, removes the position's margin from its side's
/// aggregates, and resets the position to the empty state. The caller
/// passes the unwinding value it simulated on the paired market, the money
/// market's deposit exchange rate (to size the yield-claim redemption), the
/// current funding payer and yield index.
pub fn close_position(
    bank: &mut Bank,
    market_addr: &String,
    sender: &String,
    new_position_value: u128,
    exchange_rate: u128,
    who_pays: WhoPays,
    anchor_index: u128,
) -> (r: Result<CloseResponse, ContractError>)
    requires
        old(bank).wf(),
        forall|i: int, j: int|
            0 <= i < old(bank).markets@.len() && 0 <= j < old(bank).positions@.len()
                && (#[trigger] old(bank).markets@[i]).contract_addr@ == market_addr@
                && entry_key_is(#[trigger] old(bank).positions@[j], market_addr@, sender@)
                ==> close_fits(
                old(bank).markets@[i],
                old(bank).positions@[j].position,
                new_position_value as int,
                exchange_rate as int,
                who_pays,
                anchor_index as int,
            ),
    ensures
        final(bank).wf(),
        final(bank).config == old(bank).config,
        (r is Ok) <==> {
            &&& contains_market(old(bank).markets@, market_addr@)
            &&& exists|j: int|
                0 <= j < old(bank).positions@.len() && entry_key_is(
                    #[trigger] old(bank).positions@[j],
                    market_addr@,
                    sender@,
                ) && old(bank).positions@[j].position.direction != Direction::NOT_SET
        },
        match r {
            Ok(resp) => exists|i: int, j: int|
                {
                    let market = old(bank).markets@[i];
                    let position = old(bank).positions@[j].position;
                    &&& 0 <= i < old(bank).markets@.len()
                    &&& 0 <= j < old(bank).positions@.len()
                    &&& (#[trigger] old(bank).markets@[i]).contract_addr@ == market_addr@
                    &&& entry_key_is(#[trigger] old(bank).positions@[j], market_addr@, sender@)
                    &&& resp == (CloseResponse {
                        direction: position.direction,
                        position_size: position.positionSize,
                        margin_returned: margin_adjusted_spec(
                            market,
                            position,
                            new_position_value as int,
                        ) as u128,
                        redeem_amount: ((margin_adjusted_spec(
                            market,
                            position,
                            new_position_value as int,
                        ) * exchange_rate) / (DEC_ONE as int)) as u128,
                    })
                    &&& final(bank).markets@ == old(bank).markets@.update(
                        i,
                        market_after_close(
                            market,
                            position.direction,
                            position.margin,
                            who_pays,
                            anchor_index as int,
                        ),
                    )
                    &&& final(bank).positions@ == old(bank).positions@.update(
                        j,
                        PositionEntry {
                            market_addr: old(bank).positions@[j].market_addr,
                            user_addr: old(bank).positions@[j].user_addr,
                            position: empty_position(),
                        },
                    )
                },
            Err(e) => {
                &&& final(bank).markets@ == old(bank).markets@
                &&& final(bank).positions@ == old(bank).positions@
                &&& (e == ContractError::MarketNotFound <==> !contains_market(
                    old(bank).markets@,
                    market_addr@,
                ))
                &&& (e == ContractError::PositionNotFound <==> contains_market(
                    old(bank).markets@,
                    market_addr@,
                ) && !contains_position(old(bank).positions@, market_addr@, sender@))
                &&& (e == ContractError::PositionNotOpen <==> exists|j: int|
                    0 <= j < old(bank).positions@.len() && contains_market(
                        old(bank).markets@,
                        market_addr@,
                    ) && entry_key_is(#[trigger] old(bank).positions@[j], market_addr@, sender@)
                        && old(bank).positions@[j].position.direction == Direction::NOT_SET)
                &&& (e == ContractError::MarketNotFound || e == ContractError::PositionNotFound
                    || e == ContractError::PositionNotOpen)
            },
        },
{
    let market_idx: usize = match find_market(&bank.markets, market_addr) {
        Some(i) => i,
        None => {
            return Err(ContractError::MarketNotFound);
        },
    };
    let position_idx: usize = match find_position(&bank.positions, market_addr, sender) {
        Some(j) => j,
        None => {
            return Err(ContractError::PositionNotFound);
        },
    };
    let position: Position = bank.positions[position_idx].position;
    if matches!(position.direction, Direction::NOT_SET) {
        return Err(ContractError::PositionNotOpen);
    }
    let margin_adjusted: u128 = match simulate_close(
        &bank.markets[market_idx],
        &position,
        new_position_value,
    ) {
        Ok(t) => t.3,
        Err(e) => {
            return Err(e);
        },
    };
    let redeem_amount: u128 = mul_div(margin_adjusted, exchange_rate, DEC_ONE);
    let market = &mut bank.markets[market_idx];
    update_anchor_rewards(market, who_pays, anchor_index);
    match position.direction {
        Direction::LONG => {
            market.total_long_margin = market.total_long_margin - position.margin;
            market.total_margin = market.total_margin - position.margin;
        },
        Direction::SHORT => {
            market.total_short_margin = market.total_short_margin - position.margin;
            market.total_margin = market.total_margin - position.margin;
        },
        Direction::NOT_SET => {
            return Err(ContractError::PositionNotOpen);
        },
    }
    let entry = &mut bank.positions[position_idx];
    entry.position = Position {
        margin: 0,
        direction: Direction::NOT_SET,
        openingValue: 0,
        positionSize: 0,
        last_cumulative_funding: 0,
        last_cumulative_long_rewards: 0,
        last_cumulative_short_rewards: 0,
    };
    Ok(
        CloseResponse {
            direction: position.direction,
            position_size: position.positionSize,
            margin_returned: margin_adjusted,
            redeem_amount,
        },
    )
}

/// What a successful liquidation hands back: the unwinding swap data, the
/// liquidator's reward and the remainder returned to the position holder.
#[derive(Clone, Copy, Debug, PartialEq, Eq, Structural)]
pub struct LiquidateResponse {
    pub direction: Direction,
    pub position_size: u128,
    pub margin_to_liquidators: u128,
    pub margin_to_holders: u128,
}

/// The position's health on close: remaining collateral over opening
/// notional (fixed-point raw, floored).
pub open spec fn margin_ratio_spec(margin_adjusted: int, opening_value: int) -> int {
    (margin_adjusted * DEC_ONE) / opening_value
}

/// The liquidator's cut: the configured fraction of the opening notional,
/// but never more than the collateral that remains.
pub open spec fn liquidator_reward_spec(
    margin_adjusted: int,
    opening_value: int,
    reward_fraction: int,
) -> int {
    let cap = (opening_value * reward_fraction) / (DEC_ONE as int);
    if cap > margin_adjusted {
        margin_adjusted
    } else {
        cap
    }
}

/// The bounds under which a liquidation computes: the settlement fits, the
/// opening notional is positive (the ratio divides by it) and the ratio
/// numerator fits.
pub open spec fn liquidate_fits(m: Market, p: Position, value: int) -> bool {
    &&& simulate_close_wf(m, p, value)
    &&& (p.direction != Direction::NOT_SET ==> p.openingValue > 0 && margin_adjusted_spec(
        m,
        p,
        value,
    ) * DEC_ONE / (p.openingValue as int) <= u128::MAX)
}

/// Force-closes another holder's position. Any caller may liquidate, but
/// only a position whose health — settled collateral over opening notional
/// — has fallen to or below the configured liquidation ratio; otherwise the
/// call fails as `Unliquidatable`. The settled collateral is split between
/// the liquidator (a configured fraction of the notional, never more than
/// what remains) and the holder, and the position is reset to the empty
/// state. The market's aggregates are left as they are.
pub fn liquidate(
    bank: &mut Bank,
    market_addr: &String,
    holder_addr: &String,
    new_position_value: u128,
) -> (r: Result<LiquidateResponse, ContractError>)
    requires
        old(bank).wf(),
        forall|i: int, j: int|
            0 <= i < old(bank).markets@.len() && 0 <= j < old(bank).positions@.len()
                && (#[trigger] old(bank).markets@[i]).contract_addr@ == market_addr@
                && entry_key_is(#[trigger] old(bank).positions@[j], market_addr@, holder_addr@)
                ==> liquidate_fits(
                old(bank).markets@[i],
                old(bank).positions@[j].position,
                new_position_value as int,
            ),
    ensures
        final(bank).wf(),
        final(bank).config == old(bank).config,
        final(bank).markets@ == old(bank).markets@,
        (r is Ok) <==> {
            &&& contains_market(old(bank).markets@, market_addr@)
            &&& exists|i: int, j: int|
                0 <= i < old(bank).markets@.len() && 0 <= j < old(bank).positions@.len()
                    && (#[trigger] old(bank).markets@[i]).contract_addr@ == market_addr@
                    && entry_key_is(
                    #[trigger] old(bank).positions@[j],
                    market_addr@,
                    holder_addr@,
                ) && old(bank).positions@[j].position.direction != Direction::NOT_SET
                    && margin_ratio_spec(
                    margin_adjusted_spec(
                        old(bank).markets@[i],
                        old(bank).positions@[j].position,
                        new_position_value as int,
                    ),
                    old(bank).positions@[j].position.openingValue as int,
                ) <= old(bank).config.liquidation_ratio as int
        },
        match r {
            Ok(resp) => exists|i: int, j: int|
                {
                    let market = old(bank).markets@[i];
                    let position = old(bank).positions@[j].position;
                    let adjusted = margin_adjusted_spec(
                        market,
                        position,
                        new_position_value as int,
                    );
                    let reward = liquidator_reward_spec(
                        adjusted,
                        position.openingValue as int,
                        old(bank).config.liquidation_reward as int,
                    );
                    &&& 0 <= i < old(bank).markets@.len()
                    &&& 0 <= j < old(bank).positions@.len()
                    &&& (#[trigger] old(bank).markets@[i]).contract_addr@ == market_addr@
                    &&& entry_key_is(
                        #[trigger] old(bank).positions@[j],
                        market_addr@,
                        holder_addr@,
                    )
                    &&& resp == (LiquidateResponse {
                        direction: position.direction,
                        position_size: position.positionSize,
                        margin_to_liquidators: reward as u128,
                        margin_to_holders: (adjusted - reward) as u128,
                    })
                    &&& final(bank).positions@ == old(bank).positions@.update(
                        j,
                        PositionEntry {
                            market_addr: old(bank).positions@[j].market_addr,
                            user_addr: old(bank).positions@[j].user_addr,
                            position: empty_position(),
                        },
                    )
                },
            Err(e) => {
                &&& final(bank).positions@ == old(bank).positions@
                &&& (e == ContractError::PositionNotFound <==> !contains_position(
                    old(bank).positions@,
                    market_addr@,
                    holder_addr@,
                ))
                &&& (e == ContractError::PositionNotOpen <==> exists|j: int|
                    0 <= j < old(bank).positions@.len() && entry_key_is(
                        #[trigger] old(bank).positions@[j],
                        market_addr@,
                        holder_addr@,
                    ) && old(bank).positions@[j].position.direction == Direction::NOT_SET)
                &&& (e == ContractError::MarketNotFound <==> contains_position(
                    old(bank).positions@,
                    market_addr@,
                    holder_addr@,
                ) && !contains_market(old(bank).markets@, market_addr@) && exists|j: int|
                    0 <= j < old(bank).positions@.len() && entry_key_is(
                        #[trigger] old(bank).positions@[j],
                        market_addr@,
                        holder_addr@,
                    ) && old(bank).positions@[j].position.direction != Direction::NOT_SET)
                &&& (e == ContractError::MarketNotFound || e == ContractError::PositionNotFound
                    || e == ContractError::PositionNotOpen || e == ContractError::Unliquidatable)
            },
        },
{
    let position_idx: usize = match find_position(&bank.positions, market_addr, holder_addr) {
        Some(j) => j,
        None => {
            return Err(ContractError::PositionNotFound);
        },
    };
    let position: Position = bank.positions[position_idx].position;
    if matches!(position.direction, Direction::NOT_SET) {
        return Err(ContractError::PositionNotOpen);
    }
    let market_idx: usize = match find_market(&bank.markets, market_addr) {
        Some(i) => i,
        None => {
            return Err(ContractError::MarketNotFound);
        },
    };
    let margin_adjusted: u128 = match simulate_close(
        &bank.markets[market_idx],
        &position,
        new_position_value,
    ) {
        Ok(t) => t.3,
        Err(e) => {
            return Err(e);
        },
    };
    let margin_ratio: u128 = mul_div(margin_adjusted, DEC_ONE, position.openingValue);
    if margin_ratio > bank.config.liquidation_ratio {
        return Err(ContractError::Unliquidatable);
    }
    proof {
        let ov = position.openingValue as int;
        let fr = bank.config.liquidation_reward as int;
        vstd::arithmetic::mul::lemma_mul_inequality(fr, DEC_ONE as int, ov);
        vstd::arithmetic::mul::lemma_mul_is_commutative(fr, ov);
        vstd::arithmetic::mul::lemma_mul_is_commutative(DEC_ONE as int, ov);
        vstd::arithmetic::div_mod::lemma_div_is_ordered(
            ov * fr,
            ov * (DEC_ONE as int),
            DEC_ONE as int,
        );
        vstd::arithmetic::div_mod::lemma_div_multiples_vanish(ov, DEC_ONE as int);
    }
    let reward_cap: u128 = mul_div(
        position.openingValue,
        bank.config.liquidation_reward,
        DEC_ONE,
    );
    let margin_to_liquidators: u128 = if reward_cap > margin_adjusted {
        margin_adjusted
    } else {
        reward_cap
    };
    let margin_to_holders: u128 = margin_adjusted - margin_to_liquidators;
    let entry = &mut bank.positions[position_idx];
    entry.position = Position {
        margin: 0,
        direction: Direction::NOT_SET,
        openingValue: 0,
        positionSize: 0,
        last_cumulative_funding: 0,
        last_cumulative_long_rewards: 0,
        last_cumulative_short_rewards: 0,
    };
    Ok(
        LiquidateResponse {
            direction: position.direction,
            position_size: position.positionSize,
            margin_to_liquidators,
            margin_to_holders,
        },
    )
}

/// An outbound call the ledger asks its host to perform.
#[derive(Clone, Debug)]
pub enum BankAction {
    /// Tell the paired market to settle one funding period.
    SettleFunding { market_addr: String },
    /// Call the ledger itself back to mirror the settled accumulator.
    UpdateFundingInternal { market_addr: String },
}

/// Plans a funding update for one market. Settlement on the paired market
/// and the mirroring read cannot share one call — a dispatched call's
/// effects are not visible to its issuer — so the update is two outbound
/// calls run in order: settle on the market, then the ledger's own
/// [`update_funding_internal`] for the same market.
pub fn update_funding(market_addr: &String) -> (r: Vec<BankAction>)
    ensures
        r@.len() == 2,
        r@[0] matches BankAction::SettleFunding { market_addr: m } && m@ == market_addr@,
        r@[1] matches BankAction::UpdateFundingInternal { market_addr: m } && m@ == market_addr@,
{
    let mut actions: Vec<BankAction> = Vec::new();
    actions.push(BankAction::SettleFunding { market_addr: market_addr.clone() });
    actions.push(BankAction::UpdateFundingInternal { market_addr: market_addr.clone() });
    actions
}

/// The second phase of a funding update: copies the paired market's
/// now-settled cumulative funding premium, as the caller re-queried it,
/// into the ledger's market record.
pub fn update_funding_internal(
    bank: &mut Bank,
    market_addr: &String,
    funding_premium_cumulative: u128,
) -> (r: Result<(), ContractError>)
    requires
        old(bank).wf(),
    ensures
        final(bank).wf(),
        final(bank).config == old(bank).config,
        final(bank).positions@ == old(bank).positions@,
        (r is Ok) <==> contains_market(old(bank).markets@, market_addr@),
        match r {
            Ok(()) => exists|i: int|
                0 <= i < old(bank).markets@.len() && (#[trigger] old(
                    bank,
                ).markets@[i]).contract_addr@ == market_addr@ && final(bank).markets@ == old(
                    bank,
                ).markets@.update(
                    i,
                    Market {
                        cumulative_funding_premium: funding_premium_cumulative,
                        ..old(bank).markets@[i]
                    },
                ),
            Err(e) => e == ContractError::MarketNotFound && final(bank).markets@ == old(
                bank,
            ).markets@,
        },
{
    let market_idx: usize = match find_market(&bank.markets, market_addr) {
        Some(i) => i,
        None => {
            return Err(ContractError::MarketNotFound);
        },
    };
    let market = &mut bank.markets[market_idx];
    market.cumulative_funding_premium = funding_premium_cumulative;
    Ok(())
}

/// A position's externally visible state, settled against the current
/// market accumulators and unwinding value.
#[allow(non_snake_case)]
#[derive(Clone, Copy, Debug, PartialEq, Eq, Structural)]
pub struct PositionResponse {
    pub margin: u128,
    pub margin_left: u128,
    pub openingValue: u128,
    pub current_value: u128,
    pub margin_ratio: u128,
    pub positionSize: u128,
    pub direction: Direction,
    pub pnl: i64,
    pub funding: FundingResponse,
}

/// A market record's externally visible state.
#[derive(Clone, Debug)]
pub struct MarketResponse {
    pub contract_addr: String,
    pub cumulative_funding_premium: u128,
}

/// The ledger's externally visible configuration.
#[derive(Clone, Debug)]
pub struct ConfigResponse {
    pub contract_addr: String,
    pub owner_addr: String,
    pub stable_denom: String,
}

/// The response a query on a sideless position gets: idle margin only, a
/// ratio of one, no value at stake and no funding.
pub open spec fn idle_position_response(p: Position) -> PositionResponse {
    PositionResponse {
        margin: p.margin,
        margin_left: p.margin,
        openingValue: p.openingValue,
        current_value: p.openingValue,
        margin_ratio: DEC_ONE,
        positionSize: p.positionSize,
        direction: p.direction,
        pnl: 0,
        funding: FundingResponse { amount: 0, sign: Sign::Positive },
    }
}

/// The response a query on an open position gets: the settlement against
/// the given unwinding value, and the health ratio.
pub open spec fn open_position_response(m: Market, p: Position, value: int) -> PositionResponse {
    PositionResponse {
        margin: p.margin,
        margin_left: margin_adjusted_spec(m, p, value) as u128,
        openingValue: p.openingValue,
        current_value: value as u128,
        margin_ratio: margin_ratio_spec(
            margin_adjusted_spec(m, p, value),
            p.openingValue as int,
        ) as u128,
        positionSize: p.positionSize,
        direction: p.direction,
        pnl: pnl_spec(p, value) as i64,
        funding: FundingResponse {
            amount: funding_amount_spec(m, p) as u128,
            sign: funding_sign_spec(m, p),
        },
    }
}

/// Reads one position, settled but unchanged: an open position is valued
/// against the passed-in unwinding value; a sideless one reports its idle
/// margin and a ratio of one.
pub fn query_position(
    bank: &Bank,
    market_addr: &String,
    user_addr: &String,
    new_position_value: u128,
) -> (r: Result<PositionResponse, ContractError>)
    requires
        bank.wf(),
        forall|i: int, j: int|
            0 <= i < bank.markets@.len() && 0 <= j < bank.positions@.len() && (#[trigger] bank
                .markets@[i]).contract_addr@ == market_addr@ && entry_key_is(
                #[trigger] bank.positions@[j],
                market_addr@,
                user_addr@,
            ) ==> liquidate_fits(
                bank.markets@[i],
                bank.positions@[j].position,
                new_position_value as int,
            ),
    ensures
        (r is Ok) <==> exists|j: int|
            0 <= j < bank.positions@.len() && entry_key_is(
                #[trigger] bank.positions@[j],
                market_addr@,
                user_addr@,
            ) && (bank.positions@[j].position.direction == Direction::NOT_SET
                || contains_market(bank.markets@, market_addr@)),
        match r {
            Ok(resp) => exists|j: int|
                {
                    &&& 0 <= j < bank.positions@.len()
                    &&& entry_key_is(#[trigger] bank.positions@[j], market_addr@, user_addr@)
                    &&& if bank.positions@[j].position.direction == Direction::NOT_SET {
                        resp == idle_position_response(bank.positions@[j].position)
                    } else {
                        exists|i: int|
                            0 <= i < bank.markets@.len() && (#[trigger] bank
                                .markets@[i]).contract_addr@ == market_addr@ && resp
                                == open_position_response(
                                bank.markets@[i],
                                bank.positions@[j].position,
                                new_position_value as int,
                            )
                    }
                },
            Err(e) => {
                &&& (e == ContractError::PositionNotFound <==> !contains_position(
                    bank.positions@,
                    market_addr@,
                    user_addr@,
                ))
                &&& (e == ContractError::MarketNotFound || e == ContractError::PositionNotFound)
            },
        },
{
    let position_idx: usize = match find_position(&bank.positions, market_addr, user_addr) {
        Some(j) => j,
        None => {
            return Err(ContractError::PositionNotFound);
        },
    };
    let position: Position = bank.positions[position_idx].position;
    if matches!(position.direction, Direction::NOT_SET) {
        return Ok(
            PositionResponse {
                margin: position.margin,
                margin_left: position.margin,
                openingValue: position.openingValue,
                current_value: position.openingValue,
                margin_ratio: DEC_ONE,
                positionSize: position.positionSize,
                direction: position.direction,
                pnl: 0i64,
                funding: FundingResponse { amount: 0, sign: Sign::Positive },
            },
        );
    }
    let market_idx: usize = match find_market(&bank.markets, market_addr) {
        Some(i) => i,
        None => {
            return Err(ContractError::MarketNotFound);
        },
    };
    let settled: (i64, FundingResponse, u128, u128) = match simulate_close(
        &bank.markets[market_idx],
        &position,
        new_position_value,
    ) {
        Ok(t) => t,
        Err(e) => {
            return Err(e);
        },
    };
    let margin_ratio: u128 = mul_div(settled.3, DEC_ONE, position.openingValue);
    Ok(
        PositionResponse {
            margin: position.margin,
            margin_left: settled.3,
            openingValue: position.openingValue,
            current_value: settled.2,
            margin_ratio,
            positionSize: position.positionSize,
            direction: position.direction,
            pnl: settled.0,
            funding: settled.1,
        },
    )
}

/// Reads one market record.
pub fn query_markets(bank: &Bank, market_addr: &String) -> (r: Result<
    MarketResponse,
    ContractError,
>)
    ensures
        (r is Ok) <==> contains_market(bank.markets@, market_addr@),
        match r {
            Ok(resp) => exists|i: int|
                0 <= i < bank.markets@.len() && (#[trigger] bank.markets@[i]).contract_addr@
                    == market_addr@ && resp.contract_addr@ == market_addr@
                    && resp.cumulative_funding_premium
                    == bank.markets@[i].cumulative_funding_premium,
            Err(e) => e == ContractError::MarketNotFound,
        },
{
    match find_market(&bank.markets, market_addr) {
        Some(i) => Ok(
            MarketResponse {
                contract_addr: bank.markets[i].contract_addr.clone(),
                cumulative_funding_premium: bank.markets[i].cumulative_funding_premium,
            },
        ),
        None => Err(ContractError::MarketNotFound),
    }
}

/// Reads the ledger's configuration.
pub fn query_config(bank: &Bank) -> (r: ConfigResponse)
    ensures
        r.contract_addr@ == bank.config.contract_addr@,
        r.owner_addr@ == bank.config.owner_addr@,
        r.stable_denom@ == bank.config.stable_denom@,
{
    ConfigResponse {
        contract_addr: bank.config.contract_addr.clone(),
        owner_addr: bank.config.owner_addr.clone(),
        stable_denom: bank.config.stable_denom.clone(),
    }
}

} // verus!
