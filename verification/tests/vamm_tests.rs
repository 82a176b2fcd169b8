use seesaw::arith::DEC_ONE;
use seesaw::bank::Direction;
use seesaw::error::ContractError;
use seesaw::vamm::{
    get_market_price, get_market_snapshots, instantiate, query_config, query_state,
    settle_funding, simulate_swapin, simulate_swapout, swap_in, Funding, WhoPays,
    FUNDING_BASELINE,
};

fn mock_amm(init_base_reserve: u128, init_quote_reserve: u128) -> seesaw::vamm::Amm {
    instantiate(
        "amm0000".to_string(),
        "bank0000".to_string(),
        "uusd".to_string(),
        init_base_reserve,
        init_quote_reserve,
        0,
    )
}

#[test]
fn trades_swap_in() {
    let mut amm = mock_amm(1_000, 1_000_000);

    swap_in(&mut amm, 1000, &Direction::LONG, 0).unwrap();

    assert_eq!(amm.state.quote_asset_reserve, 1001000);
    assert_eq!(amm.state.base_asset_reserve, 999);

    let snapshots = get_market_snapshots(&amm);
    assert_eq!(snapshots.snapshots, snapshots.snapshots);
}

#[test]
fn swap_out() {
    let mut amm = mock_amm(1_000, 1_000_000);

    seesaw::vamm::swap_out(&mut amm, 10, &Direction::LONG, 0).unwrap();

    assert_eq!(amm.state.quote_asset_reserve, 990099);
    assert_eq!(amm.state.base_asset_reserve, 1010);
}

#[test]
fn funding_rates_access_control() {
    let mut amm = mock_amm(1_000, 1_000_000);

    let err = settle_funding(&mut amm, &"random_person".to_string(), 1000 * DEC_ONE)
        .unwrap_err();
    assert_eq!(err, ContractError::Unauthorized);
    assert_eq!(amm.state.aggregated_funding, FUNDING_BASELINE);
}

#[test]
fn funding_rates() {
    let mut amm = mock_amm(1_000, 1_100_000);

    settle_funding(&mut amm, &"bank0000".to_string(), 1000 * DEC_ONE).unwrap();

    // mark price 1100, spot 1000: the longs pay a premium of 100 scaled by
    // eight hours over a day, one third.
    let premium_fraction: u128 = (100 * DEC_ONE) / 3;
    let funding_rate: u128 = premium_fraction / 1000;

    assert_eq!(
        amm.state.funding_rate,
        Funding { amount: funding_rate, who_pays: WhoPays::LONG }
    );
    assert_eq!(
        amm.state.aggregated_funding,
        1_000_000_000 * DEC_ONE + premium_fraction
    );
}

#[test]
fn swap_in_short_takes_quote_out() {
    let mut amm = mock_amm(1_000, 1_000_000);

    swap_in(&mut amm, 1000, &Direction::SHORT, 7).unwrap();

    assert_eq!(amm.state.quote_asset_reserve, 999_000);
    // 1_000_000_000 / 999_000 = 1001.001..., floored.
    assert_eq!(amm.state.base_asset_reserve, 1001);
}

#[test]
fn simulate_swapin_prices_without_moving_reserves() {
    let amm = mock_amm(100_000, 1_000);

    let delta = simulate_swapin(&amm, 500, &Direction::LONG).unwrap();
    // 1_000 * 100_000 / 1_500 = 66_666 (floored), so the base moves by 33_334.
    assert_eq!(delta, 33334);
    assert_eq!(amm.state.quote_asset_reserve, 1_000);
    assert_eq!(amm.state.base_asset_reserve, 100_000);
}

#[test]
fn simulate_swapout_prices_without_moving_reserves() {
    let amm = mock_amm(1_000, 1_000_000);

    let delta = simulate_swapout(&amm, 10, &Direction::LONG).unwrap();
    // 1_000_000_000 / 1_010 = 990_099 (floored), so the quote moves by 9_901.
    assert_eq!(delta, 9901);
}

#[test]
fn swap_rejects_unset_direction() {
    let mut amm = mock_amm(1_000, 1_000_000);

    let err = swap_in(&mut amm, 10, &Direction::NOT_SET, 0).unwrap_err();
    assert_eq!(err, ContractError::InvalidDirection);
    let err = seesaw::vamm::swap_out(&mut amm, 10, &Direction::NOT_SET, 0).unwrap_err();
    assert_eq!(err, ContractError::InvalidDirection);
    assert_eq!(amm.state.quote_asset_reserve, 1_000_000);
    assert_eq!(amm.state.base_asset_reserve, 1_000);
}

#[test]
fn swap_preserves_constant_product_within_rounding() {
    let mut amm = mock_amm(1_000, 1_000_000);
    let k: u128 = 1_000 * 1_000_000;

    swap_in(&mut amm, 1000, &Direction::LONG, 0).unwrap();

    let product = amm.state.quote_asset_reserve * amm.state.base_asset_reserve;
    assert!(product <= k);
    assert!(k - product < amm.state.quote_asset_reserve);
}

#[test]
fn swap_appends_market_snapshot() {
    let mut amm = mock_amm(1_000, 1_000_000);

    swap_in(&mut amm, 1000, &Direction::LONG, 42).unwrap();

    let snapshots = &get_market_snapshots(&amm).snapshots;
    assert_eq!(snapshots.len(), 2);
    assert_eq!(snapshots[0].base_asset_reserve, 1_000);
    assert_eq!(snapshots[0].quote_asset_reserve, 1_000_000);
    assert_eq!(snapshots[0].base_delta, 0);
    let last = snapshots[1];
    assert_eq!(last.base_asset_reserve, 999);
    assert_eq!(last.quote_asset_reserve, 1001000);
    // A LONG open drains the base reserve: its recorded delta is negative.
    assert_eq!(last.base_delta, -1);
    assert_eq!(last.timestamp, 42);

    // A LONG close hands base back to the pool: its delta is positive.
    seesaw::vamm::swap_out(&mut amm, 1, &Direction::LONG, 43).unwrap();
    let snapshots = &get_market_snapshots(&amm).snapshots;
    assert_eq!(snapshots.len(), 3);
    assert_eq!(snapshots[2].base_delta, 1);

    // A SHORT open feeds the base reserve (positive); a SHORT close buys
    // base out of it (negative).
    swap_in(&mut amm, 100_000, &Direction::SHORT, 44).unwrap();
    seesaw::vamm::swap_out(&mut amm, 1, &Direction::SHORT, 45).unwrap();
    let snapshots = &get_market_snapshots(&amm).snapshots;
    assert_eq!(snapshots.len(), 5);
    assert!(snapshots[3].base_delta > 0);
    assert_eq!(snapshots[4].base_delta, -1);
}

#[test]
fn deposit_swap_in() {
    let mut amm = mock_amm(100_000, 1_000);

    swap_in(&mut amm, 10, &Direction::LONG, 0).unwrap();

    // The quote amount flows in: 1_000 + 10; the base reserve becomes
    // 100_000_000 / 1_010 = 99_009 (floored).
    assert_eq!(amm.state.quote_asset_reserve, 1010);
    assert_eq!(amm.state.base_asset_reserve, 99009);
}

#[test]
fn market_price_is_quote_over_base() {
    let amm = mock_amm(1_000, 1_100_000);
    assert_eq!(get_market_price(&amm), 1100 * DEC_ONE);
}

#[test]
fn state_and_config_queries_report_the_pool() {
    let amm = mock_amm(1_000, 1_100_000);

    let state = query_state(&amm, 1000 * DEC_ONE);
    assert_eq!(state.base_asset_reserve, 1_000);
    assert_eq!(state.quote_asset_reserve, 1_100_000);
    assert_eq!(state.funding_premium_cumulative, FUNDING_BASELINE);
    assert_eq!(state.market_price, 1100 * DEC_ONE);
    assert_eq!(state.underlying_price, 1000 * DEC_ONE);

    let config = query_config(&amm);
    assert_eq!(config.contract_addr, "amm0000");
    assert_eq!(config.bank_addr, "bank0000");
    assert_eq!(config.stable_denom, "uusd");
}
