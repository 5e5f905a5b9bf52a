//! Scenario tests of the grid entry engine: normal, cropped and inflated
//! rungs, the exposure-cap boundary, and the short path.

use passivbot::entries::{
    calc_cropped_reentry_qty_long, calc_grid_entry_long, calc_next_grid_entry_short,
    calc_reentry_qty,
};
use passivbot::types::{
    BotParams, EmaBands, ExchangeParams, Order, OrderBook, OrderType, Position, StateParams,
};
use passivbot::utils::calc_wallet_exposure_if_filled;

const ONE: i128 = 100_000_000;

// A coarse instrument: price step 1.0, quantity step 0.1, no cost minimum,
// so every intermediate value in the scenarios lands exactly.
fn ex_coarse() -> ExchangeParams {
    ExchangeParams {
        price_step: ONE,
        qty_step: 10_000_000,
        min_qty: 10_000_000,
        min_cost: 0,
        c_mult: ONE,
    }
}

fn st_coarse() -> StateParams {
    StateParams {
        balance: 1000 * ONE,
        order_book: OrderBook { bid: 100 * ONE, ask: 100 * ONE },
        ema_bands: EmaBands { lower: 100 * ONE, upper: 100 * ONE },
    }
}

fn bot_coarse(wallet_exposure_limit: i128) -> BotParams {
    BotParams {
        wallet_exposure_limit,
        entry_initial_qty_pct: 100_000,  // 0.001
        entry_initial_ema_dist: 0,
        entry_grid_double_down_factor: 2 * ONE,
        entry_grid_spacing_pct: 0,
        entry_grid_spacing_weight: 0,
        entry_trailing_grid_ratio: 0,
        entry_trailing_threshold_pct: 1_000_000,
        entry_trailing_drawdown_pct: 500_000,
        close_trailing_threshold_pct: 2_000_000,
        close_trailing_drawdown_pct: 1_000_000,
    }
}

// One unit held at 100 on a balance of 1000: exposure 0.1.
fn pos_one_at_100() -> Position {
    Position { size: ONE, price: 100 * ONE }
}

#[test]
fn zero_limit_or_nonpositive_balance_gives_the_sentinel() {
    let o = calc_grid_entry_long(&ex_coarse(), &st_coarse(), &bot_coarse(0), &pos_one_at_100());
    assert_eq!(o, Order::default());
    let broke = StateParams {
        balance: 0,
        order_book: OrderBook { bid: 100 * ONE, ask: 100 * ONE },
        ema_bands: EmaBands { lower: 100 * ONE, upper: 100 * ONE },
    };
    let o = calc_grid_entry_long(&ex_coarse(), &broke, &bot_coarse(ONE), &pos_one_at_100());
    assert_eq!(o, Order::default());
}

#[test]
fn roomy_limit_gives_the_plain_double_down_rung() {
    // limit 1.0: the proposed rung 2.0 @ 100 fits, and the lookahead's next
    // rung is itself healthy, so the plain quantity stands
    let o = calc_grid_entry_long(&ex_coarse(), &st_coarse(), &bot_coarse(ONE), &pos_one_at_100());
    assert_eq!(
        o,
        Order {
            qty: 2 * ONE,
            price: 100 * ONE,
            order_type: OrderType::EntryGridNormalLong,
        }
    );
}

#[test]
fn tight_limit_crops_the_rung_to_the_cap() {
    // limit 0.12: filling 2.0 @ 100 would take exposure to 0.29999999,
    // beyond 0.12 * 1.01, so the rung is cropped by interpolation to 0.2
    let o = calc_grid_entry_long(
        &ex_coarse(),
        &st_coarse(),
        &bot_coarse(12_000_000),
        &pos_one_at_100(),
    );
    assert_eq!(
        o,
        Order {
            qty: 20_000_000,
            price: 100 * ONE,
            order_type: OrderType::EntryGridCroppedLong,
        }
    );
}

#[test]
fn cropped_fill_lands_on_the_exposure_limit() {
    // the cropping interpolation target: filling the cropped quantity lands
    // the measured exposure on the limit, one atom under it here
    let crop = calc_cropped_reentry_qty_long(
        &ex_coarse(),
        &bot_coarse(12_000_000),
        &pos_one_at_100(),
        10_000_000,
        1000 * ONE,
        2 * ONE,
        100 * ONE,
    );
    assert_eq!(crop, (29_999_999, 20_000_000));
    let exposure_after = calc_wallet_exposure_if_filled(
        1000 * ONE,
        ONE,
        100 * ONE,
        20_000_000,
        100 * ONE,
        &ex_coarse(),
    );
    assert_eq!(exposure_after, 11_999_999);
    assert!((12_000_000 - exposure_after).abs() <= 1);
}

#[test]
fn stalling_lookahead_inflates_the_rung() {
    // limit 0.35: the rung 2.0 fits, but the next rung would be cropped to
    // 0.5 on a simulated size of 3.0 — a ratio of 0.1666, under a quarter of
    // the double-down factor 2.0 — so the current rung is inflated to 2.5
    let o = calc_grid_entry_long(
        &ex_coarse(),
        &st_coarse(),
        &bot_coarse(35_000_000),
        &pos_one_at_100(),
    );
    assert_eq!(
        o,
        Order {
            qty: 250_000_000,
            price: 100 * ONE,
            order_type: OrderType::EntryGridInflatedLong,
        }
    );
}

#[test]
fn exposure_exactly_at_the_slack_boundary_gives_the_sentinel() {
    // 9.99 held at 100 on 1000: exposure exactly 0.999 == 1.0 * 0.999
    let ex = ExchangeParams {
        price_step: 1_000_000,
        qty_step: 100_000,
        min_qty: 100_000,
        min_cost: 500_000_000,
        c_mult: ONE,
    };
    let bot = BotParams {
        wallet_exposure_limit: ONE,
        entry_initial_qty_pct: 1_000_000,
        entry_initial_ema_dist: 0,
        entry_grid_double_down_factor: 2 * ONE,
        entry_grid_spacing_pct: 3_000_000,
        entry_grid_spacing_weight: 0,
        entry_trailing_grid_ratio: 0,
        entry_trailing_threshold_pct: 1_000_000,
        entry_trailing_drawdown_pct: 500_000,
        close_trailing_threshold_pct: 2_000_000,
        close_trailing_drawdown_pct: 1_000_000,
    };
    let pos = Position { size: 999_000_000, price: 100 * ONE };
    let o = calc_grid_entry_long(&ex, &st_coarse(), &bot, &pos);
    assert_eq!(o, Order::default());
}

#[test]
fn reentry_qty_doubles_down_or_restates_the_initial_fraction() {
    // max(min entry, round(max(|1.0| * 2.0, 10.0 * 1.0 * 0.001), 0.1)) == 2.0
    let q = calc_reentry_qty(100 * ONE, 1000 * ONE, ONE, &ex_coarse(), &bot_coarse(ONE));
    assert_eq!(q, 2 * ONE);
    // short sizes count by absolute value
    let q = calc_reentry_qty(100 * ONE, 1000 * ONE, -ONE, &ex_coarse(), &bot_coarse(ONE));
    assert_eq!(q, 2 * ONE);
}

#[test]
fn flat_short_grid_delegates_to_the_initial_entry() {
    let o = calc_next_grid_entry_short(
        &ex_coarse(),
        &st_coarse(),
        &bot_coarse(ONE),
        &Position { size: 0, price: 0 },
    );
    assert_eq!(
        o,
        Order {
            qty: -10_000_000,
            price: 100 * ONE,
            order_type: OrderType::EntryInitialNormalShort,
        }
    );
}

#[test]
fn established_short_grid_reentry_is_cropped_like_the_long_side() {
    // the short re-entry path reuses the long-side proposal and tags, as the
    // strategy defines it: a short position of 1.0 @ 100 under limit 0.12
    // gets the same cropped rung as the long side
    let o = calc_next_grid_entry_short(
        &ex_coarse(),
        &st_coarse(),
        &bot_coarse(12_000_000),
        &Position { size: -ONE, price: 100 * ONE },
    );
    assert_eq!(
        o,
        Order {
            qty: 20_000_000,
            price: 100 * ONE,
            order_type: OrderType::EntryGridCroppedLong,
        }
    );
}

#[test]
fn short_grid_at_the_exposure_boundary_gives_the_sentinel() {
    let ex = ExchangeParams {
        price_step: 1_000_000,
        qty_step: 100_000,
        min_qty: 100_000,
        min_cost: 500_000_000,
        c_mult: ONE,
    };
    let pos = Position { size: -999_000_000, price: 100 * ONE };
    let mut bot = bot_coarse(ONE);
    bot.entry_initial_qty_pct = 1_000_000;
    let o = calc_next_grid_entry_short(&ex, &st_coarse(), &bot, &pos);
    assert_eq!(o, Order::default());
}
