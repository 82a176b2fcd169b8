use seesaw::arith::DEC_ONE;
use seesaw::bank::{
    instantiate, liquidate, query_config, query_markets, query_position, register_market,
    update_funding, update_funding_internal, BankAction, Coin, Direction, Sign,
};
use seesaw::error::ContractError;
use seesaw::vamm::WhoPays;

// The collaborator values the scenarios assume: the paired market prices a
// swap in at a tenth of its quote value and a swap out at nine times its
// base amount; the money market's yield index stays at one and its deposit
// exchange rate at zero.
const FUNDING_START: u128 = 10_000 * DEC_ONE;
const ANCHOR_INDEX: u128 = DEC_ONE;
const EXCHANGE_RATE: u128 = 0;

fn mock_bank() -> seesaw::bank::Bank {
    // Liquidation at a margin ratio of one tenth, a liquidator reward of one
    // hundredth of the opening notional.
    instantiate(
        "bank0000".to_string(),
        "owner".to_string(),
        "anchor0000".to_string(),
        "uusd".to_string(),
        DEC_ONE / 10,
        DEC_ONE / 100,
    )
}

fn uusd(amount: u128) -> Vec<Coin> {
    vec![Coin { denom: "uusd".to_string(), amount }]
}

fn market() -> String {
    "bank0000".to_string()
}

fn depositor() -> String {
    "depositor".to_string()
}

#[test]
fn add_margin() {
    let mut bank = mock_bank();
    register_market(&mut bank, market(), FUNDING_START, ANCHOR_INDEX).unwrap();

    seesaw::bank::add_margin(&mut bank, &market(), &depositor(), &uusd(100)).unwrap();
    let position = query_position(&bank, &market(), &depositor(), 0).unwrap();
    assert_eq!(position.margin, 100);

    seesaw::bank::add_margin(&mut bank, &market(), &depositor(), &uusd(100)).unwrap();
    let position = query_position(&bank, &market(), &depositor(), 0).unwrap();
    assert_eq!(position.margin, 200);
}

#[test]
fn open_position() {
    let mut bank = mock_bank();
    register_market(&mut bank, market(), FUNDING_START, ANCHOR_INDEX).unwrap();
    seesaw::bank::add_margin(&mut bank, &market(), &depositor(), &uusd(100)).unwrap();

    let position = query_position(&bank, &market(), &depositor(), 0).unwrap();
    assert_eq!(position.margin, 100);

    // Opening a LONG of 500: the paired market simulates a base size of 50.
    seesaw::bank::open_position(
        &mut bank,
        &market(),
        &depositor(),
        Direction::LONG,
        500,
        50,
        WhoPays::LONG,
        ANCHOR_INDEX,
    )
    .unwrap();

    let position = query_position(&bank, &market(), &depositor(), 450).unwrap();
    assert_eq!(position.openingValue, 500);
    assert_eq!(position.positionSize, 50);
}

#[test]
fn close_position() {
    let mut bank = mock_bank();
    register_market(&mut bank, market(), FUNDING_START, ANCHOR_INDEX).unwrap();
    seesaw::bank::add_margin(&mut bank, &market(), &depositor(), &uusd(100)).unwrap();

    let position = query_position(&bank, &market(), &depositor(), 0).unwrap();
    assert_eq!(position.margin, 100);

    seesaw::bank::open_position(
        &mut bank,
        &market(),
        &depositor(),
        Direction::LONG,
        500,
        50,
        WhoPays::LONG,
        ANCHOR_INDEX,
    )
    .unwrap();

    // Unwinding 50 base at nine quote each values the position at 450.
    let position = query_position(&bank, &market(), &depositor(), 450).unwrap();
    assert_eq!(position.openingValue, 500);
    assert_eq!(position.positionSize, 50);
    assert_eq!(position.margin_left, 50);
    assert_eq!(position.current_value, 450);
    assert_eq!(position.pnl, -50);

    let resp = seesaw::bank::close_position(
        &mut bank,
        &market(),
        &depositor(),
        450,
        EXCHANGE_RATE,
        WhoPays::LONG,
        ANCHOR_INDEX,
    )
    .unwrap();

    assert_eq!(resp.margin_returned, 100u128 - (500u128 - 50u128 * 9u128));
    assert_eq!(resp.direction, Direction::LONG);
    assert_eq!(resp.position_size, 50);
}

#[test]
fn deposit_requires_registered_market_and_nonzero_amount() {
    let mut bank = mock_bank();

    let err = seesaw::bank::add_margin(&mut bank, &market(), &depositor(), &uusd(100)).unwrap_err();
    assert_eq!(err, ContractError::MarketNotFound);

    register_market(&mut bank, market(), FUNDING_START, ANCHOR_INDEX).unwrap();

    let err = seesaw::bank::add_margin(&mut bank, &market(), &depositor(), &Vec::new()).unwrap_err();
    assert_eq!(err, ContractError::InvalidZeroAmount);

    let wrong_denom = vec![Coin { denom: "uluna".to_string(), amount: 100 }];
    let err = seesaw::bank::add_margin(&mut bank, &market(), &depositor(), &wrong_denom).unwrap_err();
    assert_eq!(err, ContractError::InvalidZeroAmount);
}

#[test]
fn double_registration_is_refused() {
    let mut bank = mock_bank();
    register_market(&mut bank, market(), FUNDING_START, ANCHOR_INDEX).unwrap();

    let err = register_market(&mut bank, market(), FUNDING_START, ANCHOR_INDEX).unwrap_err();
    assert_eq!(err, ContractError::MarketAlreadyExists);
    assert_eq!(bank.markets.len(), 1);
}

#[test]
fn open_twice_and_close_unopened_are_refused() {
    let mut bank = mock_bank();
    register_market(&mut bank, market(), FUNDING_START, ANCHOR_INDEX).unwrap();
    seesaw::bank::add_margin(&mut bank, &market(), &depositor(), &uusd(100)).unwrap();

    let err = seesaw::bank::close_position(
        &mut bank,
        &market(),
        &depositor(),
        0,
        EXCHANGE_RATE,
        WhoPays::LONG,
        ANCHOR_INDEX,
    )
    .unwrap_err();
    assert_eq!(err, ContractError::PositionNotOpen);

    seesaw::bank::open_position(
        &mut bank,
        &market(),
        &depositor(),
        Direction::LONG,
        500,
        50,
        WhoPays::LONG,
        ANCHOR_INDEX,
    )
    .unwrap();

    let err = seesaw::bank::open_position(
        &mut bank,
        &market(),
        &depositor(),
        Direction::SHORT,
        500,
        50,
        WhoPays::LONG,
        ANCHOR_INDEX,
    )
    .unwrap_err();
    assert_eq!(err, ContractError::PositionAlreadyOpen);

    let err = seesaw::bank::open_position(
        &mut bank,
        &market(),
        &"someone_else".to_string(),
        Direction::LONG,
        500,
        50,
        WhoPays::LONG,
        ANCHOR_INDEX,
    )
    .unwrap_err();
    assert_eq!(err, ContractError::PositionNotFound);
}

#[test]
fn market_aggregates_track_open_and_close() {
    let mut bank = mock_bank();
    register_market(&mut bank, market(), FUNDING_START, ANCHOR_INDEX).unwrap();
    seesaw::bank::add_margin(&mut bank, &market(), &depositor(), &uusd(100)).unwrap();

    seesaw::bank::open_position(
        &mut bank,
        &market(),
        &depositor(),
        Direction::LONG,
        500,
        50,
        WhoPays::LONG,
        ANCHOR_INDEX,
    )
    .unwrap();

    let m = &bank.markets[0];
    assert_eq!(m.total_long_margin, 100);
    assert_eq!(m.total_short_margin, 0);
    assert_eq!(m.total_margin, m.total_long_margin + m.total_short_margin);

    seesaw::bank::close_position(
        &mut bank,
        &market(),
        &depositor(),
        450,
        EXCHANGE_RATE,
        WhoPays::LONG,
        ANCHOR_INDEX,
    )
    .unwrap();

    let m = &bank.markets[0];
    assert_eq!(m.total_long_margin, 0);
    assert_eq!(m.total_short_margin, 0);
    assert_eq!(m.total_margin, 0);
}

#[test]
fn close_resets_the_position_to_empty() {
    let mut bank = mock_bank();
    register_market(&mut bank, market(), FUNDING_START, ANCHOR_INDEX).unwrap();
    seesaw::bank::add_margin(&mut bank, &market(), &depositor(), &uusd(100)).unwrap();
    seesaw::bank::open_position(
        &mut bank,
        &market(),
        &depositor(),
        Direction::LONG,
        500,
        50,
        WhoPays::LONG,
        ANCHOR_INDEX,
    )
    .unwrap();

    seesaw::bank::close_position(
        &mut bank,
        &market(),
        &depositor(),
        450,
        EXCHANGE_RATE,
        WhoPays::LONG,
        ANCHOR_INDEX,
    )
    .unwrap();

    let position = query_position(&bank, &market(), &depositor(), 0).unwrap();
    assert_eq!(position.margin, 0);
    assert_eq!(position.direction, Direction::NOT_SET);
    assert_eq!(position.openingValue, 0);
    assert_eq!(position.positionSize, 0);
}

#[test]
fn liquidation_respects_the_threshold() {
    let mut bank = mock_bank();
    register_market(&mut bank, market(), FUNDING_START, ANCHOR_INDEX).unwrap();
    seesaw::bank::add_margin(&mut bank, &market(), &depositor(), &uusd(100)).unwrap();
    seesaw::bank::open_position(
        &mut bank,
        &market(),
        &depositor(),
        Direction::LONG,
        500,
        50,
        WhoPays::LONG,
        ANCHOR_INDEX,
    )
    .unwrap();

    // Unwinding at 480 leaves 80 of margin: a ratio of 80/500 = 0.16, above
    // the threshold of 0.1, so the position is still healthy.
    let err = liquidate(&mut bank, &market(), &depositor(), 480).unwrap_err();
    assert_eq!(err, ContractError::Unliquidatable);
    let position = query_position(&bank, &market(), &depositor(), 480).unwrap();
    assert_eq!(position.direction, Direction::LONG);

    // Unwinding at 450 leaves 50: a ratio of exactly 0.1, at the threshold,
    // so liquidation goes through. The liquidator earns one hundredth of the
    // opening notional of 500; the rest returns to the holder.
    let resp = liquidate(&mut bank, &market(), &depositor(), 450).unwrap();
    assert_eq!(resp.margin_to_liquidators, 5);
    assert_eq!(resp.margin_to_holders, 45);
    assert_eq!(resp.direction, Direction::LONG);
    assert_eq!(resp.position_size, 50);
}

#[test]
fn liquidation_resets_the_position_to_empty() {
    let mut bank = mock_bank();
    register_market(&mut bank, market(), FUNDING_START, ANCHOR_INDEX).unwrap();
    seesaw::bank::add_margin(&mut bank, &market(), &depositor(), &uusd(100)).unwrap();
    seesaw::bank::open_position(
        &mut bank,
        &market(),
        &depositor(),
        Direction::SHORT,
        500,
        50,
        WhoPays::LONG,
        ANCHOR_INDEX,
    )
    .unwrap();

    // A SHORT loses when the unwinding value rises: 100 + 500 - 550 = 50,
    // a ratio of 0.1, liquidatable.
    let resp = liquidate(&mut bank, &market(), &depositor(), 550).unwrap();
    assert_eq!(resp.margin_to_liquidators, 5);
    assert_eq!(resp.margin_to_holders, 45);

    let position = query_position(&bank, &market(), &depositor(), 0).unwrap();
    assert_eq!(position.margin, 0);
    assert_eq!(position.direction, Direction::NOT_SET);
    assert_eq!(position.openingValue, 0);
    assert_eq!(position.positionSize, 0);
}

#[test]
fn liquidation_reward_never_exceeds_what_remains() {
    let mut bank = mock_bank();
    register_market(&mut bank, market(), FUNDING_START, ANCHOR_INDEX).unwrap();
    seesaw::bank::add_margin(&mut bank, &market(), &depositor(), &uusd(100)).unwrap();
    seesaw::bank::open_position(
        &mut bank,
        &market(),
        &depositor(),
        Direction::LONG,
        500,
        50,
        WhoPays::LONG,
        ANCHOR_INDEX,
    )
    .unwrap();

    // Unwinding at 403 leaves 3, less than the reward fraction's 5: the
    // liquidator takes all that remains and the holder gets nothing.
    let resp = liquidate(&mut bank, &market(), &depositor(), 403).unwrap();
    assert_eq!(resp.margin_to_liquidators, 3);
    assert_eq!(resp.margin_to_holders, 0);
}

#[test]
fn short_position_query_settles_against_rising_value() {
    let mut bank = mock_bank();
    register_market(&mut bank, market(), FUNDING_START, ANCHOR_INDEX).unwrap();
    seesaw::bank::add_margin(&mut bank, &market(), &depositor(), &uusd(100)).unwrap();
    seesaw::bank::open_position(
        &mut bank,
        &market(),
        &depositor(),
        Direction::SHORT,
        500,
        50,
        WhoPays::LONG,
        ANCHOR_INDEX,
    )
    .unwrap();

    let position = query_position(&bank, &market(), &depositor(), 450).unwrap();
    assert_eq!(position.margin_left, 150);
    assert_eq!(position.pnl, 50);
}

#[test]
fn funding_settlement_reaches_the_position() {
    let mut bank = mock_bank();
    register_market(&mut bank, market(), FUNDING_START, ANCHOR_INDEX).unwrap();
    seesaw::bank::add_margin(&mut bank, &market(), &depositor(), &uusd(100)).unwrap();
    seesaw::bank::open_position(
        &mut bank,
        &market(),
        &depositor(),
        Direction::LONG,
        500,
        50,
        WhoPays::LONG,
        ANCHOR_INDEX,
    )
    .unwrap();

    // The paired market settles: its cumulative premium rises by 100, and
    // the ledger mirrors it. A LONG pays when the premium rose: 100 * 50.
    update_funding_internal(&mut bank, &market(), FUNDING_START + 100 * DEC_ONE).unwrap();

    let position = query_position(&bank, &market(), &depositor(), 450).unwrap();
    assert_eq!(position.funding.amount, 100 * 50);
    assert_eq!(position.funding.sign, Sign::Negative);
    // 100 + 450 loses the funding of 5_000, floored at zero, then the
    // opening value: nothing is left.
    assert_eq!(position.margin_left, 0);
}

#[test]
fn yield_subsidy_credits_the_paying_side() {
    let mut bank = mock_bank();
    register_market(&mut bank, market(), FUNDING_START, ANCHOR_INDEX).unwrap();
    seesaw::bank::add_margin(&mut bank, &market(), &depositor(), &uusd(100)).unwrap();
    seesaw::bank::open_position(
        &mut bank,
        &market(),
        &depositor(),
        Direction::LONG,
        500,
        50,
        WhoPays::LONG,
        ANCHOR_INDEX,
    )
    .unwrap();

    // A second depositor opens after margin is already on the long side, so
    // this reconciliation credits the long reward accumulator: with the
    // yield index unmoved the credit is the pool total over the side total,
    // one whole unit per unit of margin.
    let other = "depositor2".to_string();
    seesaw::bank::add_margin(&mut bank, &market(), &other, &uusd(100)).unwrap();
    seesaw::bank::open_position(
        &mut bank,
        &market(),
        &other,
        Direction::LONG,
        500,
        50,
        WhoPays::LONG,
        ANCHOR_INDEX,
    )
    .unwrap();
    assert_eq!(bank.markets[0].cumulative_long_rewards, DEC_ONE);

    // The first position snapshotted the accumulator at zero, so it now
    // enjoys a subsidy of its whole margin: 100 + 450 + 100 - 500 = 150.
    let position = query_position(&bank, &market(), &depositor(), 450).unwrap();
    assert_eq!(position.margin_left, 150);

    // The second snapshotted it after the credit and gets no subsidy.
    let position = query_position(&bank, &market(), &other, 450).unwrap();
    assert_eq!(position.margin_left, 50);
}

#[test]
fn update_funding_plans_the_two_phases() {
    let actions = update_funding(&market());
    assert_eq!(actions.len(), 2);
    match &actions[0] {
        BankAction::SettleFunding { market_addr } => assert_eq!(market_addr.as_str(), "bank0000"),
        _ => panic!("expected the settlement call first"),
    }
    match &actions[1] {
        BankAction::UpdateFundingInternal { market_addr } => {
            assert_eq!(market_addr.as_str(), "bank0000")
        }
        _ => panic!("expected the mirroring call second"),
    }
}

#[test]
fn market_and_config_queries_report_the_ledger() {
    let mut bank = mock_bank();
    register_market(&mut bank, market(), FUNDING_START, ANCHOR_INDEX).unwrap();

    let resp = query_markets(&bank, &market()).unwrap();
    assert_eq!(resp.contract_addr, "bank0000");
    assert_eq!(resp.cumulative_funding_premium, FUNDING_START);

    let err = query_markets(&bank, &"absent".to_string()).unwrap_err();
    assert_eq!(err, ContractError::MarketNotFound);

    let config = query_config(&bank);
    assert_eq!(config.contract_addr, "bank0000");
    assert_eq!(config.owner_addr, "owner");
    assert_eq!(config.stable_denom, "uusd");
}

#[test]
fn profit_figures_truncate_to_sixty_four_bits() {
    let mut bank = mock_bank();
    register_market(&mut bank, market(), FUNDING_START, ANCHOR_INDEX).unwrap();
    seesaw::bank::add_margin(&mut bank, &market(), &depositor(), &uusd(100)).unwrap();
    seesaw::bank::open_position(
        &mut bank,
        &market(),
        &depositor(),
        Direction::LONG,
        500,
        50,
        WhoPays::LONG,
        ANCHOR_INDEX,
    )
    .unwrap();

    // An unwinding value beyond 2^64 wraps: only its low 64 bits enter the
    // signed profit figure.
    let huge: u128 = (1u128 << 64) + 5;
    let position = query_position(&bank, &market(), &depositor(), huge).unwrap();
    assert_eq!(position.pnl, 5 - 500);
}
