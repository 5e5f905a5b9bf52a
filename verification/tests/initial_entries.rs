//! Scenario tests of the initial-entry pricing, long and short.

use passivbot::entries::{
    calc_initial_entry_long, calc_initial_entry_qty, calc_initial_entry_short, calc_min_entry_qty,
};
use passivbot::types::{
    BotParams, EmaBands, ExchangeParams, Order, OrderBook, OrderType, Position, StateParams,
};

const ONE: i128 = 100_000_000;

fn ex_main() -> ExchangeParams {
    ExchangeParams {
        price_step: 1_000_000,      // 0.01
        qty_step: 100_000,          // 0.001
        min_qty: 100_000,           // 0.001
        min_cost: 500_000_000,      // 5.0
        c_mult: ONE,                // 1.0
    }
}

fn st_main() -> StateParams {
    StateParams {
        balance: 1000 * ONE,
        order_book: OrderBook { bid: 100 * ONE, ask: 100 * ONE },
        ema_bands: EmaBands { lower: 100 * ONE, upper: 100 * ONE },
    }
}

fn bot_main() -> BotParams {
    BotParams {
        wallet_exposure_limit: ONE,         // 1.0
        entry_initial_qty_pct: 1_000_000,   // 0.01
        entry_initial_ema_dist: 0,
        entry_grid_double_down_factor: 2 * ONE,
        entry_grid_spacing_pct: 3_000_000,  // 0.03
        entry_grid_spacing_weight: 0,
        entry_trailing_grid_ratio: 0,
        entry_trailing_threshold_pct: 1_000_000,  // 0.01
        entry_trailing_drawdown_pct: 500_000,     // 0.005
        close_trailing_threshold_pct: 2_000_000,  // 0.02
        close_trailing_drawdown_pct: 1_000_000,   // 0.01
    }
}

fn flat() -> Position {
    Position { size: 0, price: 0 }
}

#[test]
fn sizing_helpers_give_exact_quantities() {
    // min entry at 100: max(0.001, round_up(5/100, 0.001)) == 0.05
    assert_eq!(calc_min_entry_qty(100 * ONE, &ex_main()), 5_000_000);
    // initial target: max(0.05, round(1000 * 1.0 * 0.01 / 100, 0.001)) == 0.1
    assert_eq!(
        calc_initial_entry_qty(&ex_main(), &bot_main(), 1000 * ONE, 100 * ONE),
        10_000_000
    );
}

#[test]
fn flat_position_gets_the_full_initial_entry() {
    // balance 1000, limit 1.0, initial fraction 0.01, book and band at 100:
    // quantity 0.1 at price 100
    let o = calc_initial_entry_long(&ex_main(), &st_main(), &bot_main(), &flat());
    assert_eq!(
        o,
        Order {
            qty: 10_000_000,
            price: 100 * ONE,
            order_type: OrderType::EntryInitialNormalLong,
        }
    );
}

#[test]
fn undersized_position_gets_a_top_up() {
    // 0.05 held, below 0.8 * 0.1: top-up of max(0.05, 0.1 - 0.05) == 0.05
    let pos = Position { size: 5_000_000, price: 100 * ONE };
    let o = calc_initial_entry_long(&ex_main(), &st_main(), &bot_main(), &pos);
    assert_eq!(
        o,
        Order {
            qty: 5_000_000,
            price: 100 * ONE,
            order_type: OrderType::EntryInitialPartialLong,
        }
    );
}

#[test]
fn sufficiently_initialized_position_gets_nothing() {
    // 0.09 held, at or above 0.8 * 0.1 == 0.08: the sentinel
    let pos = Position { size: 9_000_000, price: 100 * ONE };
    let o = calc_initial_entry_long(&ex_main(), &st_main(), &bot_main(), &pos);
    assert_eq!(o, Order::default());
}

#[test]
fn degenerate_anchor_price_gives_the_sentinel() {
    // band edge so low that the quantized anchor is not above one price step
    let st = StateParams {
        balance: 1000 * ONE,
        order_book: OrderBook { bid: 100 * ONE, ask: 100 * ONE },
        ema_bands: EmaBands { lower: 500_000, upper: 100 * ONE },
    };
    let o = calc_initial_entry_long(&ex_main(), &st, &bot_main(), &flat());
    assert_eq!(o, Order::default());
}

#[test]
fn flat_position_gets_the_full_short_entry() {
    // the short side mirrors the long with a negative quantity at the ask
    let o = calc_initial_entry_short(&ex_main(), &st_main(), &bot_main(), &flat());
    assert_eq!(
        o,
        Order {
            qty: -10_000_000,
            price: 100 * ONE,
            order_type: OrderType::EntryInitialNormalShort,
        }
    );
}

#[test]
fn undersized_short_position_gets_a_top_up() {
    let pos = Position { size: -5_000_000, price: 100 * ONE };
    let o = calc_initial_entry_short(&ex_main(), &st_main(), &bot_main(), &pos);
    assert_eq!(
        o,
        Order {
            qty: -5_000_000,
            price: 100 * ONE,
            order_type: OrderType::EntryInitialPartialShort,
        }
    );
}

#[test]
fn established_short_position_gets_nothing() {
    let pos = Position { size: -9_000_000, price: 100 * ONE };
    let o = calc_initial_entry_short(&ex_main(), &st_main(), &bot_main(), &pos);
    assert_eq!(o, Order::default());
}
