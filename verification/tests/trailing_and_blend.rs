//! Scenario tests of the trailing engines, the trailing close, the regime
//! blender, and determinism.

use passivbot::entries::{calc_next_entry_long, calc_trailing_entry_long, calc_trailing_entry_short};
use passivbot::trailing;
use passivbot::types::{
    BotParams, EmaBands, ExchangeParams, Order, OrderBook, OrderType, Position, StateParams,
};

const ONE: i128 = 100_000_000;

fn ex_main() -> ExchangeParams {
    ExchangeParams {
        price_step: 1_000_000,      // 0.01
        qty_step: 100_000,          // 0.001
        min_qty: 100_000,           // 0.001
        min_cost: 500_000_000,      // 5.0
        c_mult: ONE,
    }
}

fn st_main() -> StateParams {
    StateParams {
        balance: 1000 * ONE,
        order_book: OrderBook { bid: 100 * ONE, ask: 100 * ONE },
        ema_bands: EmaBands { lower: 100 * ONE, upper: 100 * ONE },
    }
}

fn bot_main() -> BotParams {
    BotParams {
        wallet_exposure_limit: ONE,
        entry_initial_qty_pct: 1_000_000,   // 0.01
        entry_initial_ema_dist: 0,
        entry_grid_double_down_factor: 2 * ONE,
        entry_grid_spacing_pct: 3_000_000,
        entry_grid_spacing_weight: 0,
        entry_trailing_grid_ratio: 0,
        entry_trailing_threshold_pct: 1_000_000,  // 0.01
        entry_trailing_drawdown_pct: 500_000,     // 0.005
        close_trailing_threshold_pct: 2_000_000,  // 0.02
        close_trailing_drawdown_pct: 1_000_000,   // 0.01
    }
}

// 0.1 held at 100: established (0.8 of the 0.1 target), exposure 0.01.
fn pos_small() -> Position {
    Position { size: 10_000_000, price: 100 * ONE }
}

#[test]
fn untriggered_trailing_entry_is_armed_not_empty() {
    // no retrace yet: the minimum since open sits at the position price, so
    // the order is the zero-quantity armed sentinel, distinct from Empty
    let o = calc_trailing_entry_long(
        &ex_main(),
        &st_main(),
        &bot_main(),
        &pos_small(),
        100 * ONE,
        100 * ONE,
    );
    assert_eq!(
        o,
        Order { qty: 0, price: 0, order_type: OrderType::EntryTrailingNormalLong }
    );
    assert_ne!(o, Order::default());
}

#[test]
fn retrace_without_rebound_stays_armed() {
    // retraced to 98 but no rebound past 98 * 1.005
    let o = calc_trailing_entry_long(
        &ex_main(),
        &st_main(),
        &bot_main(),
        &pos_small(),
        98 * ONE,
        98 * ONE,
    );
    assert_eq!(
        o,
        Order { qty: 0, price: 0, order_type: OrderType::EntryTrailingNormalLong }
    );
}

#[test]
fn triggered_trailing_entry_buys_the_double_down_quantity() {
    // retrace to 98 (past 100 * 0.99) and rebound to 99 (past 98 * 1.005):
    // quantity 0.2 at min(bid, round_dn(100 * (1 - 0.01 + 0.005))) == 99.5
    let o = calc_trailing_entry_long(
        &ex_main(),
        &st_main(),
        &bot_main(),
        &pos_small(),
        98 * ONE,
        99 * ONE,
    );
    assert_eq!(
        o,
        Order {
            qty: 20_000_000,
            price: 9_950_000_000,
            order_type: OrderType::EntryTrailingNormalLong,
        }
    );
}

#[test]
fn triggered_trailing_entry_at_the_cap_gives_the_sentinel() {
    // exposure exactly 1.0 * 0.999: triggered but capped
    let pos = Position { size: 999_000_000, price: 100 * ONE };
    let o = calc_trailing_entry_long(&ex_main(), &st_main(), &bot_main(), &pos, 98 * ONE, 99 * ONE);
    assert_eq!(o, Order::default());
}

#[test]
fn bare_trailing_reentry_returns_empty_while_untriggered() {
    // the position-assuming variant has no armed sentinel: untriggered means
    // no order at all
    let o = trailing::calc_trailing_entry_long(
        &ex_main(),
        &st_main(),
        &bot_main(),
        &pos_small(),
        100 * ONE,
        100 * ONE,
    );
    assert_eq!(o, Order::default());
    let flat = trailing::calc_trailing_entry_long(
        &ex_main(),
        &st_main(),
        &bot_main(),
        &Position { size: 0, price: 0 },
        100 * ONE,
        100 * ONE,
    );
    assert_eq!(flat, Order::default());
}

#[test]
fn bare_trailing_reentry_fires_like_the_delegating_variant() {
    let o = trailing::calc_trailing_entry_long(
        &ex_main(),
        &st_main(),
        &bot_main(),
        &pos_small(),
        98 * ONE,
        99 * ONE,
    );
    assert_eq!(
        o,
        Order {
            qty: 20_000_000,
            price: 9_950_000_000,
            order_type: OrderType::EntryTrailingNormalLong,
        }
    );
}

#[test]
fn untriggered_short_trailing_entry_is_armed() {
    // no rally yet: the maximum since open sits at the position price
    let pos = Position { size: -10_000_000, price: 100 * ONE };
    let o = calc_trailing_entry_short(
        &ex_main(),
        &st_main(),
        &bot_main(),
        &pos,
        100 * ONE,
        100 * ONE,
    );
    assert_eq!(
        o,
        Order { qty: 0, price: 0, order_type: OrderType::EntryTrailingNormalShort }
    );
}

#[test]
fn triggered_short_trailing_entry_sells_at_the_marked_up_price() {
    // rally to 102 (past 100 * 1.01), pullback to 101 (under 102 * 0.995):
    // quantity -0.2 at max(ask, round_up(100 * (1 + 0.01 - 0.005))) == 100.5
    let pos = Position { size: -10_000_000, price: 100 * ONE };
    let o = calc_trailing_entry_short(
        &ex_main(),
        &st_main(),
        &bot_main(),
        &pos,
        102 * ONE,
        101 * ONE,
    );
    assert_eq!(
        o,
        Order {
            qty: -20_000_000,
            price: 10_050_000_000,
            order_type: OrderType::EntryTrailingNormalShort,
        }
    );
}

#[test]
fn zero_drawdown_close_is_immediate() {
    // the full exit at max(ask, round_up(100 * (1 + max(0, 0.02 - 0)))) == 102
    let mut bot = bot_main();
    bot.close_trailing_drawdown_pct = 0;
    let o = trailing::calc_trailing_close_long(
        &ex_main(),
        &st_main(),
        &bot,
        &pos_small(),
        100 * ONE,
        100 * ONE,
    );
    assert_eq!(
        o,
        Order {
            qty: -10_000_000,
            price: 10_200_000_000,
            order_type: OrderType::CloseTrailingLong,
        }
    );
}

#[test]
fn untriggered_close_gives_the_sentinel() {
    // no rally past 100 * 1.02 yet
    let o = trailing::calc_trailing_close_long(
        &ex_main(),
        &st_main(),
        &bot_main(),
        &pos_small(),
        100 * ONE,
        100 * ONE,
    );
    assert_eq!(o, Order::default());
    // flat position: nothing to close
    let o = trailing::calc_trailing_close_long(
        &ex_main(),
        &st_main(),
        &bot_main(),
        &Position { size: 0, price: 0 },
        103 * ONE,
        101 * ONE,
    );
    assert_eq!(o, Order::default());
}

#[test]
fn triggered_close_exits_the_full_position() {
    // rally to 103 (past 102), pullback to 101.9 (under 103 * 0.99):
    // full exit at max(ask, round_up(100 * (1 + 0.02 - 0.01))) == 101
    let o = trailing::calc_trailing_close_long(
        &ex_main(),
        &st_main(),
        &bot_main(),
        &pos_small(),
        103 * ONE,
        10_190_000_000,
    );
    assert_eq!(
        o,
        Order {
            qty: -10_000_000,
            price: 10_100_000_000,
            order_type: OrderType::CloseTrailingLong,
        }
    );
}

#[test]
fn unit_ratio_blends_to_pure_trailing() {
    let mut bot = bot_main();
    bot.entry_trailing_grid_ratio = ONE;
    // untriggered established position: the trailing armed sentinel
    let o = calc_next_entry_long(
        &ex_main(),
        &st_main(),
        &bot,
        &pos_small(),
        100 * ONE,
        100 * ONE,
    );
    assert_eq!(
        o,
        Order { qty: 0, price: 0, order_type: OrderType::EntryTrailingNormalLong }
    );
}

#[test]
fn zero_ratio_blends_to_pure_grid() {
    // grid on the established position: a plain double-down rung at
    // round_dn(100 * (1 - 0.03)) == 97, quantity 0.2
    let o = calc_next_entry_long(
        &ex_main(),
        &st_main(),
        &bot_main(),
        &pos_small(),
        100 * ONE,
        100 * ONE,
    );
    assert_eq!(
        o,
        Order {
            qty: 20_000_000,
            price: 9_700_000_000,
            order_type: OrderType::EntryGridNormalLong,
        }
    );
}

#[test]
fn trailing_first_ratio_uses_trailing_below_the_blend_boundary() {
    // flat position, exposure zero, ratio 0.5: the plain trailing engine,
    // which delegates to the initial entry
    let mut bot = bot_main();
    bot.entry_trailing_grid_ratio = 50_000_000;
    let o = calc_next_entry_long(
        &ex_main(),
        &st_main(),
        &bot,
        &Position { size: 0, price: 0 },
        0,
        0,
    );
    assert_eq!(
        o,
        Order {
            qty: 10_000_000,
            price: 100 * ONE,
            order_type: OrderType::EntryInitialNormalLong,
        }
    );
}

#[test]
fn trailing_first_ratio_switches_to_grid_past_the_boundary() {
    // exposure fraction 0.999 is past the ratio 0.5: the plain grid engine
    // at the unscaled limit, which is capped here — the sentinel
    let mut bot = bot_main();
    bot.entry_trailing_grid_ratio = 50_000_000;
    let pos = Position { size: 999_000_000, price: 100 * ONE };
    let o = calc_next_entry_long(&ex_main(), &st_main(), &bot, &pos, 98 * ONE, 99 * ONE);
    assert_eq!(o, Order::default());
}

#[test]
fn grid_first_ratio_uses_grid_below_the_boundary() {
    // flat position, ratio -0.5: the plain grid engine, which delegates to
    // the initial entry
    let mut bot = bot_main();
    bot.entry_trailing_grid_ratio = -50_000_000;
    let o = calc_next_entry_long(
        &ex_main(),
        &st_main(),
        &bot,
        &Position { size: 0, price: 0 },
        0,
        0,
    );
    assert_eq!(
        o,
        Order {
            qty: 10_000_000,
            price: 100 * ONE,
            order_type: OrderType::EntryInitialNormalLong,
        }
    );
}

#[test]
fn rescaled_trailing_first_entry_is_cropped_to_the_blend_share() {
    // established position under a trailing-first blend: exposure 0.01 on a
    // fraction of 0.01 < ratio 0.5, so the trailing engine runs under the
    // rescaled limit 1.0 * 0.5 * 1.01 == 0.505; triggered, it still fits,
    // and the order equals the plain trailing one
    let mut bot = bot_main();
    bot.entry_trailing_grid_ratio = 50_000_000;
    let o = calc_next_entry_long(&ex_main(), &st_main(), &bot, &pos_small(), 98 * ONE, 99 * ONE);
    assert_eq!(
        o,
        Order {
            qty: 20_000_000,
            price: 9_950_000_000,
            order_type: OrderType::EntryTrailingNormalLong,
        }
    );
}

#[test]
fn identical_inputs_give_identical_orders() {
    // determinism, bit for bit: the same snapshot evaluated twice
    let a = calc_next_entry_long(
        &ex_main(),
        &st_main(),
        &bot_main(),
        &pos_small(),
        98 * ONE,
        99 * ONE,
    );
    let b = calc_next_entry_long(
        &ex_main(),
        &st_main(),
        &bot_main(),
        &pos_small(),
        98 * ONE,
        99 * ONE,
    );
    assert_eq!(a, b);
}
