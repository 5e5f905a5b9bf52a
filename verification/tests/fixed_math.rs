//! Exact-value tests of the fixed-point arithmetic and the numeric
//! primitives. One unit is 100_000_000 atoms.

use passivbot::fixed::{fx_add, fx_div, fx_mul, fx_sub, round_dn, round_nr, round_up, CAP};
use passivbot::types::ExchangeParams;
use passivbot::utils::{
    calc_ema_price_ask, calc_ema_price_bid, calc_new_psize_pprice, calc_wallet_exposure,
    calc_wallet_exposure_if_filled, cost_to_qty, interpolate,
};

const ONE: i128 = 100_000_000;

fn ex_main() -> ExchangeParams {
    ExchangeParams {
        price_step: 1_000_000,      // 0.01
        qty_step: 100_000,          // 0.001
        min_qty: 100_000,           // 0.001
        min_cost: 500_000_000,      // 5.0
        c_mult: ONE,                // 1.0
    }
}

#[test]
fn multiplication_scales_and_truncates() {
    // 1.5 * 2.0 == 3.0
    assert_eq!(fx_mul(150_000_000, 200_000_000), 300_000_000);
    // 0.1 * 0.1 == 0.01
    assert_eq!(fx_mul(10_000_000, 10_000_000), 1_000_000);
    // signs
    assert_eq!(fx_mul(-150_000_000, 200_000_000), -300_000_000);
    assert_eq!(fx_mul(-150_000_000, -200_000_000), 300_000_000);
    // truncation toward zero: 0.00000001 * 0.5 == 0 (one atom halved)
    assert_eq!(fx_mul(1, 50_000_000), 0);
    assert_eq!(fx_mul(-1, 50_000_000), 0);
}

#[test]
fn multiplication_saturates_at_cap() {
    assert_eq!(fx_mul(CAP, 2 * ONE), CAP);
    assert_eq!(fx_mul(-CAP, 2 * ONE), -CAP);
}

#[test]
fn division_scales_and_saturates() {
    // 1.0 / 8.0 == 0.125
    assert_eq!(fx_div(ONE, 8 * ONE), 12_500_000);
    // 10.0 / 97.0 == 0.10309278...
    assert_eq!(fx_div(10 * ONE, 97 * ONE), 10_309_278);
    assert_eq!(fx_div(-10 * ONE, 97 * ONE), -10_309_278);
    // a zero divisor saturates high, standing in for an unbounded ratio
    assert_eq!(fx_div(ONE, 0), CAP);
    assert_eq!(fx_div(0, 0), CAP);
}

#[test]
fn addition_and_subtraction_saturate() {
    assert_eq!(fx_add(ONE, 2 * ONE), 3 * ONE);
    assert_eq!(fx_sub(ONE, 2 * ONE), -ONE);
    assert_eq!(fx_add(CAP, CAP), CAP);
    assert_eq!(fx_sub(-CAP, CAP), -CAP);
}

#[test]
fn rounding_modes() {
    // round down / up / nearest on 1.05 with step 0.1
    assert_eq!(round_dn(105_000_000, 10_000_000), 100_000_000);
    assert_eq!(round_up(105_000_000, 10_000_000), 110_000_000);
    // ties away from zero
    assert_eq!(round_nr(105_000_000, 10_000_000), 110_000_000);
    assert_eq!(round_nr(-105_000_000, 10_000_000), -110_000_000);
    // negative values: down is toward minus infinity, up toward plus
    assert_eq!(round_dn(-105_000_000, 10_000_000), -110_000_000);
    assert_eq!(round_up(-105_000_000, 10_000_000), -100_000_000);
    // already quantized values stay put
    assert_eq!(round_dn(100_000_000, 10_000_000), 100_000_000);
    assert_eq!(round_up(100_000_000, 10_000_000), 100_000_000);
    assert_eq!(round_nr(100_000_000, 10_000_000), 100_000_000);
}

#[test]
fn cost_to_qty_divides_by_notional_price() {
    // 10.0 at price 100.0, multiplier 1.0 -> 0.1
    assert_eq!(cost_to_qty(10 * ONE, 100 * ONE, ONE), 10_000_000);
    // 5.0 at price 100.0 -> 0.05
    assert_eq!(cost_to_qty(5 * ONE, 100 * ONE, ONE), 5_000_000);
    // contract multiplier 0.5 doubles the quantity
    assert_eq!(cost_to_qty(10 * ONE, 100 * ONE, 50_000_000), 20_000_000);
}

#[test]
fn wallet_exposure_is_notional_over_balance() {
    // |0.1| * 100.0 * 1.0 / 1000.0 == 0.01
    assert_eq!(
        calc_wallet_exposure(ONE, 1000 * ONE, 10_000_000, 100 * ONE),
        1_000_000
    );
    // short positions count by absolute size
    assert_eq!(
        calc_wallet_exposure(ONE, 1000 * ONE, -10_000_000, 100 * ONE),
        1_000_000
    );
    // exactly 0.999 of a unit limit
    assert_eq!(
        calc_wallet_exposure(ONE, 1000 * ONE, 999_000_000, 100 * ONE),
        99_900_000
    );
}

#[test]
fn position_merge_is_volume_weighted() {
    // 0.1 @ 100 merged with a fill of 0.1 @ 90 -> 0.2 @ 95
    let merged = calc_new_psize_pprice(10_000_000, 100 * ONE, 10_000_000, 90 * ONE, 100_000);
    assert_eq!(merged, (20_000_000, 95 * ONE));
    // a zero fill changes nothing
    assert_eq!(
        calc_new_psize_pprice(10_000_000, 100 * ONE, 0, 90 * ONE, 100_000),
        (10_000_000, 100 * ONE)
    );
    // a fill into a flat position is taken as is
    assert_eq!(
        calc_new_psize_pprice(0, 0, 10_000_000, 90 * ONE, 100_000),
        (10_000_000, 90 * ONE)
    );
}

#[test]
fn exposure_if_filled_merges_then_measures() {
    // 0.1 @ 100 plus 0.2 @ 97 on balance 1000:
    // merged size 0.3, merged price 97.99999902 (volume-weighted, truncating),
    // exposure 0.02939999
    let r = calc_wallet_exposure_if_filled(
        1000 * ONE,
        10_000_000,
        100 * ONE,
        20_000_000,
        97 * ONE,
        &ex_main(),
    );
    assert_eq!(r, 2_939_999);
}

#[test]
fn interpolation_solves_the_two_point_line() {
    // halfway between (0, 0) and (2, 10) at target 1 -> 5
    assert_eq!(interpolate(ONE, 0, 2 * ONE, 0, 10 * ONE), 5 * ONE);
    // at the left point
    assert_eq!(interpolate(0, 0, 2 * ONE, 0, 10 * ONE), 0);
    // at the right point
    assert_eq!(interpolate(2 * ONE, 0, 2 * ONE, 0, 10 * ONE), 10 * ONE);
}

#[test]
fn ema_anchor_prices_clamp_toward_the_book() {
    // zero distance: the band edge quantized, clamped by the bid
    assert_eq!(
        calc_ema_price_bid(1_000_000, 100 * ONE, 100 * ONE, 0),
        100 * ONE
    );
    // band above the bid: the bid wins on the bid side
    assert_eq!(
        calc_ema_price_bid(1_000_000, 100 * ONE, 105 * ONE, 0),
        100 * ONE
    );
    // band below the bid: the quantized band wins
    assert_eq!(
        calc_ema_price_bid(1_000_000, 100 * ONE, 9_950_000_000, 0),
        9_950_000_000
    );
    // ask side mirrors with max and round-up; distance 0.01 lifts the band
    assert_eq!(
        calc_ema_price_ask(1_000_000, 100 * ONE, 100 * ONE, 1_000_000),
        10_100_000_000
    );
    assert_eq!(
        calc_ema_price_ask(1_000_000, 10_200_000_000, 100 * ONE, 1_000_000),
        10_200_000_000
    );
}
