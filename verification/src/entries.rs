//! Entry decision functions: initial entries, grid re-entries with cropping
//! and lookahead inflation, trailing entries, and the regime blender that
//! picks between the grid and trailing engines.
//!
//! Each executable function is proved to return exactly the order its
//! mathematical model computes; the models are spec functions over the
//! fixed-point integers of [`crate::fixed`].

use vstd::prelude::*;
use crate::fixed::{
    fx_abs, fx_add, fx_div, fx_max, fx_min, fx_mul, fx_sub, round_dn, round_nr, round_up,
    spec_fx_add, spec_fx_div, spec_fx_mul, spec_fx_sub, spec_max, spec_min, spec_round_dn,
    spec_round_nr, spec_round_up, BIG, CAP, MAX_STEP, ROUND_IN, SCALE,
};
use crate::types::{
    bot_valid, empty_model, exchange_valid, order_matches, position_valid, state_valid, BotParams,
    ExchangeParams, Order, OrderModel, OrderType, Position, StateParams,
};
use crate::utils::{
    calc_ema_price_ask, calc_ema_price_bid, calc_new_psize_pprice, calc_wallet_exposure,
    calc_wallet_exposure_if_filled, cost_to_qty, interpolate, spec_cost_to_qty,
    spec_ema_price_ask, spec_ema_price_bid, spec_interpolate, spec_new_psize_pprice,
    spec_wallet_exposure, spec_wallet_exposure_if_filled,
};

verus! {

/// Tolerance band for topping up a partial initial entry: a position at or
/// above this fraction of the initial target counts as initialized.
pub const PCT_80: i128 = 80_000_000;

/// Slack under the exposure limit at which entries stop, avoiding flapping
/// right at the cap.
pub const PCT_999: i128 = 99_900_000;

/// Slack over the exposure limit beyond which a re-entry is cropped.
pub const PCT_101: i128 = 101_000_000;

/// Fraction of the double-down factor below which the next grid rung counts
/// as a dust-sized stall.
pub const PCT_25: i128 = 25_000_000;

/// Smallest quantity the exchange accepts at `entry_price`: the larger of
/// `min_qty` and `min_cost` converted to a quantity, rounded up.
pub open spec fn spec_min_entry_qty(entry_price: int, ex: ExchangeParams) -> int {
    spec_max(
        ex.min_qty as int,
        spec_round_up(
            spec_cost_to_qty(ex.min_cost as int, entry_price, ex.c_mult as int),
            ex.qty_step as int,
        ),
    )
}

/// Smallest accepted entry quantity at `entry_price`.
pub fn calc_min_entry_qty(entry_price: i128, ex: &ExchangeParams) -> (r: i128)
    requires
        exchange_valid(*ex),
        -BIG <= entry_price <= BIG,
    ensures
        r == spec_min_entry_qty(entry_price as int, *ex),
        0 <= r <= CAP + MAX_STEP,
{
    fx_max(ex.min_qty, round_up(cost_to_qty(ex.min_cost, entry_price, ex.c_mult), ex.qty_step))
}

/// Quantity of a first entry: the initial fraction of the risk budget
/// converted to a quantity at `entry_price`, floored by the exchange minimum.
pub open spec fn spec_initial_entry_qty(
    ex: ExchangeParams,
    bot: BotParams,
    balance: int,
    entry_price: int,
) -> int {
    spec_max(
        spec_min_entry_qty(entry_price, ex),
        spec_round_nr(
            spec_cost_to_qty(
                spec_fx_mul(
                    spec_fx_mul(balance, bot.wallet_exposure_limit as int),
                    bot.entry_initial_qty_pct as int,
                ),
                entry_price,
                ex.c_mult as int,
            ),
            ex.qty_step as int,
        ),
    )
}

/// `max(min_entry_qty, round(balance * limit * initial_pct / price, qty_step))`.
pub fn calc_initial_entry_qty(
    ex: &ExchangeParams,
    bot: &BotParams,
    balance: i128,
    entry_price: i128,
) -> (r: i128)
    requires
        exchange_valid(*ex),
        bot_valid(*bot),
        -BIG <= balance <= BIG,
        -BIG <= entry_price <= BIG,
    ensures
        r == spec_initial_entry_qty(*ex, *bot, balance as int, entry_price as int),
        0 <= r <= CAP + MAX_STEP,
{
    fx_max(
        calc_min_entry_qty(entry_price, ex),
        round_nr(
            cost_to_qty(
                fx_mul(fx_mul(balance, bot.wallet_exposure_limit), bot.entry_initial_qty_pct),
                entry_price,
                ex.c_mult,
            ),
            ex.qty_step,
        ),
    )
}

/// Model of the long initial entry: anchor at the EMA bid price, reject a
/// degenerate anchor, then size by current position state.
pub open spec fn spec_initial_entry_long(
    ex: ExchangeParams,
    st: StateParams,
    bot: BotParams,
    pos: Position,
) -> OrderModel {
    let iep = spec_ema_price_bid(
        ex.price_step as int,
        st.order_book.bid as int,
        st.ema_bands.lower as int,
        bot.entry_initial_ema_dist as int,
    );
    if iep <= ex.price_step {
        empty_model()
    } else {
        let ieq = spec_initial_entry_qty(ex, bot, st.balance as int, iep);
        if pos.size == 0 {
            OrderModel { qty: ieq, price: iep, order_type: OrderType::EntryInitialNormalLong }
        } else if pos.size < spec_fx_mul(ieq, PCT_80 as int) {
            OrderModel {
                qty: spec_max(
                    spec_min_entry_qty(iep, ex),
                    spec_round_dn(spec_fx_sub(ieq, pos.size as int), ex.qty_step as int),
                ),
                price: iep,
                order_type: OrderType::EntryInitialPartialLong,
            }
        } else {
            empty_model()
        }
    }
}

/// First entry (or top-up of an undersized one) on the long side.
pub fn calc_initial_entry_long(
    exchange_params: &ExchangeParams,
    state_params: &StateParams,
    bot_params: &BotParams,
    position: &Position,
) -> (o: Order)
    requires
        exchange_valid(*exchange_params),
        state_valid(*state_params),
        bot_valid(*bot_params),
        position_valid(*position),
    ensures
        order_matches(o, spec_initial_entry_long(*exchange_params, *state_params, *bot_params, *position)),
        fx_abs(o.qty as int) <= CAP + MAX_STEP,
        fx_abs(o.price as int) <= BIG,
{
    let initial_entry_price: i128 = calc_ema_price_bid(
        exchange_params.price_step,
        state_params.order_book.bid,
        state_params.ema_bands.lower,
        bot_params.entry_initial_ema_dist,
    );
    if initial_entry_price <= exchange_params.price_step {
        return Order::default();
    }
    let initial_entry_qty: i128 = calc_initial_entry_qty(
        exchange_params,
        bot_params,
        state_params.balance,
        initial_entry_price,
    );
    if position.size == 0 {
        Order {
            qty: initial_entry_qty,
            price: initial_entry_price,
            order_type: OrderType::EntryInitialNormalLong,
        }
    } else if position.size < fx_mul(initial_entry_qty, PCT_80) {
        Order {
            qty: fx_max(
                calc_min_entry_qty(initial_entry_price, exchange_params),
                round_dn(fx_sub(initial_entry_qty, position.size), exchange_params.qty_step),
            ),
            price: initial_entry_price,
            order_type: OrderType::EntryInitialPartialLong,
        }
    } else {
        Order::default()
    }
}

/// Model of the short initial entry: anchor at the EMA ask price, size by
/// the absolute position size; quantities are negative.
pub open spec fn spec_initial_entry_short(
    ex: ExchangeParams,
    st: StateParams,
    bot: BotParams,
    pos: Position,
) -> OrderModel {
    let iep = spec_ema_price_ask(
        ex.price_step as int,
        st.order_book.ask as int,
        st.ema_bands.upper as int,
        bot.entry_initial_ema_dist as int,
    );
    let ieq = spec_initial_entry_qty(ex, bot, st.balance as int, iep);
    let size_abs = fx_abs(pos.size as int);
    if size_abs == 0 {
        OrderModel { qty: -ieq, price: iep, order_type: OrderType::EntryInitialNormalShort }
    } else if size_abs < spec_fx_mul(ieq, PCT_80 as int) {
        OrderModel {
            qty: -spec_max(
                spec_min_entry_qty(iep, ex),
                spec_round_dn(spec_fx_sub(ieq, size_abs), ex.qty_step as int),
            ),
            price: iep,
            order_type: OrderType::EntryInitialPartialShort,
        }
    } else {
        empty_model()
    }
}

/// First entry (or top-up of an undersized one) on the short side.
pub fn calc_initial_entry_short(
    exchange_params: &ExchangeParams,
    state_params: &StateParams,
    bot_params: &BotParams,
    position: &Position,
) -> (o: Order)
    requires
        exchange_valid(*exchange_params),
        state_valid(*state_params),
        bot_valid(*bot_params),
        position_valid(*position),
    ensures
        order_matches(o, spec_initial_entry_short(*exchange_params, *state_params, *bot_params, *position)),
        fx_abs(o.qty as int) <= CAP + MAX_STEP,
        fx_abs(o.price as int) <= BIG,
{
    let initial_entry_price: i128 = calc_ema_price_ask(
        exchange_params.price_step,
        state_params.order_book.ask,
        state_params.ema_bands.upper,
        bot_params.entry_initial_ema_dist,
    );
    let initial_entry_qty: i128 = calc_initial_entry_qty(
        exchange_params,
        bot_params,
        state_params.balance,
        initial_entry_price,
    );
    let position_size_abs: i128 = if position.size < 0 {
        -position.size
    } else {
        position.size
    };
    if position_size_abs == 0 {
        Order {
            qty: -initial_entry_qty,
            price: initial_entry_price,
            order_type: OrderType::EntryInitialNormalShort,
        }
    } else if position_size_abs < fx_mul(initial_entry_qty, PCT_80) {
        Order {
            qty: -fx_max(
                calc_min_entry_qty(initial_entry_price, exchange_params),
                round_dn(fx_sub(initial_entry_qty, position_size_abs), exchange_params.qty_step),
            ),
            price: initial_entry_price,
            order_type: OrderType::EntryInitialPartialShort,
        }
    } else {
        Order::default()
    }
}

/// Re-entry quantity: double down on the current size or restate the initial
/// fraction of the budget, whichever is larger, floored by the exchange
/// minimum.
pub open spec fn spec_reentry_qty(
    entry_price: int,
    balance: int,
    position_size: int,
    ex: ExchangeParams,
    bot: BotParams,
) -> int {
    spec_max(
        spec_min_entry_qty(entry_price, ex),
        spec_round_nr(
            spec_max(
                spec_fx_mul(fx_abs(position_size), bot.entry_grid_double_down_factor as int),
                spec_fx_mul(
                    spec_fx_mul(
                        spec_cost_to_qty(balance, entry_price, ex.c_mult as int),
                        bot.wallet_exposure_limit as int,
                    ),
                    bot.entry_initial_qty_pct as int,
                ),
            ),
            ex.qty_step as int,
        ),
    )
}

/// `max(min_entry_qty, round(max(|size| * ddf, balance_qty * limit * pct)))`.
pub fn calc_reentry_qty(
    entry_price: i128,
    balance: i128,
    position_size: i128,
    exchange_params: &ExchangeParams,
    bot_params: &BotParams,
) -> (r: i128)
    requires
        exchange_valid(*exchange_params),
        bot_valid(*bot_params),
        -BIG <= entry_price <= BIG,
        -BIG <= balance <= BIG,
        -BIG <= position_size <= BIG,
    ensures
        r == spec_reentry_qty(
            entry_price as int,
            balance as int,
            position_size as int,
            *exchange_params,
            *bot_params,
        ),
        0 <= r <= CAP + MAX_STEP,
{
    let size_abs: i128 = if position_size < 0 {
        -position_size
    } else {
        position_size
    };
    fx_max(
        calc_min_entry_qty(entry_price, exchange_params),
        round_nr(
            fx_max(
                fx_mul(size_abs, bot_params.entry_grid_double_down_factor),
                fx_mul(
                    fx_mul(
                        cost_to_qty(balance, entry_price, exchange_params.c_mult),
                        bot_params.wallet_exposure_limit,
                    ),
                    bot_params.entry_initial_qty_pct,
                ),
            ),
            exchange_params.qty_step,
        ),
    )
}

/// Re-entry price: the position price stepped down by the exposure-weighted
/// spacing, quantized down and clamped toward the bid; `0` stands for "no
/// valid price".
pub open spec fn spec_reentry_price(
    position_price: int,
    wallet_exposure: int,
    order_book_bid: int,
    ex: ExchangeParams,
    bot: BotParams,
) -> int {
    let multiplier = spec_fx_mul(
        spec_fx_div(wallet_exposure, bot.wallet_exposure_limit as int),
        bot.entry_grid_spacing_weight as int,
    );
    let stepped = spec_round_dn(
        spec_fx_mul(
            position_price,
            spec_fx_sub(
                SCALE as int,
                spec_fx_mul(
                    bot.entry_grid_spacing_pct as int,
                    spec_fx_add(SCALE as int, multiplier),
                ),
            ),
        ),
        ex.price_step as int,
    );
    let clamped = spec_min(order_book_bid, stepped);
    if clamped <= ex.price_step {
        0
    } else {
        clamped
    }
}

/// Price of the next grid re-entry below the position price.
fn calc_reentry_price(
    position_price: i128,
    wallet_exposure: i128,
    order_book_bid: i128,
    exchange_params: &ExchangeParams,
    bot_params: &BotParams,
) -> (r: i128)
    requires
        exchange_valid(*exchange_params),
        bot_valid(*bot_params),
        -BIG <= position_price <= BIG,
        -BIG <= wallet_exposure <= BIG,
        -BIG <= order_book_bid <= BIG,
    ensures
        r == spec_reentry_price(
            position_price as int,
            wallet_exposure as int,
            order_book_bid as int,
            *exchange_params,
            *bot_params,
        ),
        0 <= r <= CAP + MAX_STEP,
        r == 0 || r > exchange_params.price_step,
{
    let multiplier: i128 = fx_mul(
        fx_div(wallet_exposure, bot_params.wallet_exposure_limit),
        bot_params.entry_grid_spacing_weight,
    );
    let stepped: i128 = round_dn(
        fx_mul(
            position_price,
            fx_sub(SCALE, fx_mul(bot_params.entry_grid_spacing_pct, fx_add(SCALE, multiplier))),
        ),
        exchange_params.price_step,
    );
    let entry_price: i128 = fx_min(order_book_bid, stepped);
    if entry_price <= exchange_params.price_step {
        0
    } else {
        entry_price
    }
}

/// Exposure-cap cropping: the exposure a fill would produce, and the entry
/// quantity reduced — by solving the two-point exposure/size line for the
/// size that exactly reaches the limit — when that exposure overshoots the
/// limit by more than the crop slack.
pub open spec fn spec_cropped_reentry_qty_long(
    ex: ExchangeParams,
    bot: BotParams,
    psize: int,
    pprice: int,
    wallet_exposure: int,
    balance: int,
    entry_qty: int,
    entry_price: int,
) -> (int, int) {
    let weif = spec_wallet_exposure_if_filled(balance, psize, pprice, entry_qty, entry_price, ex);
    if weif > spec_fx_mul(bot.wallet_exposure_limit as int, PCT_101 as int) {
        let cropped = spec_fx_sub(
            spec_interpolate(
                bot.wallet_exposure_limit as int,
                wallet_exposure,
                weif,
                psize,
                spec_fx_add(psize, entry_qty),
            ),
            psize,
        );
        (weif, spec_round_nr(cropped, ex.qty_step as int))
    } else {
        (weif, entry_qty)
    }
}

/// Exposure-if-filled of a proposed long re-entry, and its quantity cropped
/// to the exposure cap where needed.
pub fn calc_cropped_reentry_qty_long(
    exchange_params: &ExchangeParams,
    bot_params: &BotParams,
    position: &Position,
    wallet_exposure: i128,
    balance: i128,
    entry_qty: i128,
    entry_price: i128,
) -> (r: (i128, i128))
    requires
        exchange_valid(*exchange_params),
        bot_valid(*bot_params),
        -ROUND_IN <= position.size <= ROUND_IN,
        -BIG <= position.price <= BIG,
        -BIG <= wallet_exposure <= BIG,
        -BIG <= balance <= BIG,
        -ROUND_IN <= entry_qty <= ROUND_IN,
        -BIG <= entry_price <= BIG,
    ensures
        r.0 == spec_cropped_reentry_qty_long(
            *exchange_params,
            *bot_params,
            position.size as int,
            position.price as int,
            wallet_exposure as int,
            balance as int,
            entry_qty as int,
            entry_price as int,
        ).0,
        r.1 == spec_cropped_reentry_qty_long(
            *exchange_params,
            *bot_params,
            position.size as int,
            position.price as int,
            wallet_exposure as int,
            balance as int,
            entry_qty as int,
            entry_price as int,
        ).1,
        -CAP <= r.0 <= CAP,
        fx_abs(r.1 as int) <= spec_max(fx_abs(entry_qty as int), CAP + MAX_STEP),
{
    let wallet_exposure_if_filled: i128 = calc_wallet_exposure_if_filled(
        balance,
        position.size,
        position.price,
        entry_qty,
        entry_price,
        exchange_params,
    );
    if wallet_exposure_if_filled > fx_mul(bot_params.wallet_exposure_limit, PCT_101) {
        let cropped: i128 = fx_sub(
            interpolate(
                bot_params.wallet_exposure_limit,
                wallet_exposure,
                wallet_exposure_if_filled,
                position.size,
                fx_add(position.size, entry_qty),
            ),
            position.size,
        );
        (wallet_exposure_if_filled, round_nr(cropped, exchange_params.qty_step))
    } else {
        (wallet_exposure_if_filled, entry_qty)
    }
}

/// Model of the long grid re-entry: guards, initial-entry delegation, the
/// exposure-cap check, the re-entry proposal, cropping, and the two-step
/// lookahead that inflates the current rung when the next one would stall.
pub open spec fn spec_grid_entry_long(
    ex: ExchangeParams,
    st: StateParams,
    bot: BotParams,
    pos: Position,
) -> OrderModel {
    if bot.wallet_exposure_limit == 0 || st.balance <= 0 {
        empty_model()
    } else {
        let iep = spec_ema_price_bid(
            ex.price_step as int,
            st.order_book.bid as int,
            st.ema_bands.lower as int,
            bot.entry_initial_ema_dist as int,
        );
        if iep <= ex.price_step {
            empty_model()
        } else {
            let ieq = spec_initial_entry_qty(ex, bot, st.balance as int, iep);
            if pos.size == 0 {
                OrderModel { qty: ieq, price: iep, order_type: OrderType::EntryInitialNormalLong }
            } else if pos.size < spec_fx_mul(ieq, PCT_80 as int) {
                OrderModel {
                    qty: spec_max(
                        spec_min_entry_qty(iep, ex),
                        spec_round_dn(spec_fx_sub(ieq, pos.size as int), ex.qty_step as int),
                    ),
                    price: iep,
                    order_type: OrderType::EntryInitialPartialLong,
                }
            } else {
                let we = spec_wallet_exposure(
                    ex.c_mult as int,
                    st.balance as int,
                    pos.size as int,
                    pos.price as int,
                );
                if we >= spec_fx_mul(bot.wallet_exposure_limit as int, PCT_999 as int) {
                    empty_model()
                } else {
                    let rp = spec_reentry_price(
                        pos.price as int,
                        we,
                        st.order_book.bid as int,
                        ex,
                        bot,
                    );
                    if rp <= 0 {
                        empty_model()
                    } else {
                        let rq = spec_max(
                            spec_reentry_qty(rp, st.balance as int, pos.size as int, ex, bot),
                            ieq,
                        );
                        let crop = spec_cropped_reentry_qty_long(
                            ex,
                            bot,
                            pos.size as int,
                            pos.price as int,
                            we,
                            st.balance as int,
                            rq,
                            rp,
                        );
                        if crop.1 < rq {
                            OrderModel {
                                qty: crop.1,
                                price: rp,
                                order_type: OrderType::EntryGridCroppedLong,
                            }
                        } else {
                            let sim = spec_new_psize_pprice(
                                pos.size as int,
                                pos.price as int,
                                rq,
                                rp,
                                ex.qty_step as int,
                            );
                            let nrp = spec_reentry_price(
                                sim.1,
                                crop.0,
                                st.order_book.bid as int,
                                ex,
                                bot,
                            );
                            let nrq = spec_max(
                                spec_reentry_qty(nrp, st.balance as int, sim.0, ex, bot),
                                ieq,
                            );
                            let ncrop = spec_cropped_reentry_qty_long(
                                ex,
                                bot,
                                sim.0,
                                sim.1,
                                crop.0,
                                st.balance as int,
                                nrq,
                                nrp,
                            );
                            let eddf = spec_fx_div(ncrop.1, sim.0);
                            if eddf < spec_fx_mul(
                                bot.entry_grid_double_down_factor as int,
                                PCT_25 as int,
                            ) {
                                OrderModel {
                                    qty: spec_round_nr(
                                        spec_fx_sub(
                                            spec_interpolate(
                                                bot.wallet_exposure_limit as int,
                                                we,
                                                crop.0,
                                                pos.size as int,
                                                spec_fx_add(pos.size as int, rq),
                                            ),
                                            pos.size as int,
                                        ),
                                        ex.qty_step as int,
                                    ),
                                    price: rp,
                                    order_type: OrderType::EntryGridInflatedLong,
                                }
                            } else {
                                OrderModel {
                                    qty: rq,
                                    price: rp,
                                    order_type: OrderType::EntryGridNormalLong,
                                }
                            }
                        }
                    }
                }
            }
        }
    }
}

/// Next long grid entry: initial entry while the position is small, then
/// laddered re-entries with exposure-cap cropping and lookahead inflation.
pub fn calc_grid_entry_long(
    exchange_params: &ExchangeParams,
    state_params: &StateParams,
    bot_params: &BotParams,
    position: &Position,
) -> (o: Order)
    requires
        exchange_valid(*exchange_params),
        state_valid(*state_params),
        bot_valid(*bot_params),
        position_valid(*position),
    ensures
        order_matches(o, spec_grid_entry_long(*exchange_params, *state_params, *bot_params, *position)),
        fx_abs(o.qty as int) <= CAP + MAX_STEP,
        fx_abs(o.price as int) <= BIG,
{
    if bot_params.wallet_exposure_limit == 0 || state_params.balance <= 0 {
        return Order::default();
    }
    let initial_entry_price: i128 = calc_ema_price_bid(
        exchange_params.price_step,
        state_params.order_book.bid,
        state_params.ema_bands.lower,
        bot_params.entry_initial_ema_dist,
    );
    if initial_entry_price <= exchange_params.price_step {
        return Order::default();
    }
    let initial_entry_qty: i128 = calc_initial_entry_qty(
        exchange_params,
        bot_params,
        state_params.balance,
        initial_entry_price,
    );
    if position.size == 0 {
        return Order {
            qty: initial_entry_qty,
            price: initial_entry_price,
            order_type: OrderType::EntryInitialNormalLong,
        };
    } else if position.size < fx_mul(initial_entry_qty, PCT_80) {
        return Order {
            qty: fx_max(
                calc_min_entry_qty(initial_entry_price, exchange_params),
                round_dn(fx_sub(initial_entry_qty, position.size), exchange_params.qty_step),
            ),
            price: initial_entry_price,
            order_type: OrderType::EntryInitialPartialLong,
        };
    }
    let wallet_exposure: i128 = calc_wallet_exposure(
        exchange_params.c_mult,
        state_params.balance,
        position.size,
        position.price,
    );
    if wallet_exposure >= fx_mul(bot_params.wallet_exposure_limit, PCT_999) {
        return Order::default();
    }
    let reentry_price: i128 = calc_reentry_price(
        position.price,
        wallet_exposure,
        state_params.order_book.bid,
        exchange_params,
        bot_params,
    );
    if reentry_price <= 0 {
        return Order::default();
    }
    let reentry_qty: i128 = fx_max(
        calc_reentry_qty(
            reentry_price,
            state_params.balance,
            position.size,
            exchange_params,
            bot_params,
        ),
        initial_entry_qty,
    );
    let crop: (i128, i128) = calc_cropped_reentry_qty_long(
        exchange_params,
        bot_params,
        position,
        wallet_exposure,
        state_params.balance,
        reentry_qty,
        reentry_price,
    );
    let wallet_exposure_if_filled: i128 = crop.0;
    let reentry_qty_cropped: i128 = crop.1;
    if reentry_qty_cropped < reentry_qty {
        return Order {
            qty: reentry_qty_cropped,
            price: reentry_price,
            order_type: OrderType::EntryGridCroppedLong,
        };
    }
    // preview the next rung to decide whether this one must be inflated
    let sim: (i128, i128) = calc_new_psize_pprice(
        position.size,
        position.price,
        reentry_qty,
        reentry_price,
        exchange_params.qty_step,
    );
    let psize_if_filled: i128 = sim.0;
    let pprice_if_filled: i128 = sim.1;
    let next_reentry_price: i128 = calc_reentry_price(
        pprice_if_filled,
        wallet_exposure_if_filled,
        state_params.order_book.bid,
        exchange_params,
        bot_params,
    );
    let next_reentry_qty: i128 = fx_max(
        calc_reentry_qty(
            next_reentry_price,
            state_params.balance,
            psize_if_filled,
            exchange_params,
            bot_params,
        ),
        initial_entry_qty,
    );
    let next_crop: (i128, i128) = calc_cropped_reentry_qty_long(
        exchange_params,
        bot_params,
        &Position { size: psize_if_filled, price: pprice_if_filled },
        wallet_exposure_if_filled,
        state_params.balance,
        next_reentry_qty,
        next_reentry_price,
    );
    let next_reentry_qty_cropped: i128 = next_crop.1;
    let effective_double_down_factor: i128 = fx_div(next_reentry_qty_cropped, psize_if_filled);
    if effective_double_down_factor < fx_mul(bot_params.entry_grid_double_down_factor, PCT_25) {
        // next rung would stall; inflate the current one to reach the cap
        let new_entry_qty: i128 = fx_sub(
            interpolate(
                bot_params.wallet_exposure_limit,
                wallet_exposure,
                wallet_exposure_if_filled,
                position.size,
                fx_add(position.size, reentry_qty),
            ),
            position.size,
        );
        Order {
            qty: round_nr(new_entry_qty, exchange_params.qty_step),
            price: reentry_price,
            order_type: OrderType::EntryGridInflatedLong,
        }
    } else {
        Order {
            qty: reentry_qty,
            price: reentry_price,
            order_type: OrderType::EntryGridNormalLong,
        }
    }
}

/// Model of one proposed grid re-entry from an arbitrary position state:
/// the order, the exposure a fill would produce, and whether it was cropped.
pub open spec fn spec_reentry_order(
    ex: ExchangeParams,
    st: StateParams,
    bot: BotParams,
    psize: int,
    pprice: int,
    initial_qty: int,
) -> (OrderModel, int, bool) {
    let we = spec_wallet_exposure(ex.c_mult as int, st.balance as int, psize, pprice);
    if we >= spec_fx_mul(bot.wallet_exposure_limit as int, PCT_999 as int) {
        (empty_model(), 0, false)
    } else {
        let ep = spec_reentry_price(pprice, we, st.order_book.bid as int, ex, bot);
        if ep == 0 {
            (empty_model(), 0, false)
        } else {
            let eq = spec_max(spec_reentry_qty(ep, st.balance as int, psize, ex, bot), initial_qty);
            let weif = spec_wallet_exposure_if_filled(st.balance as int, psize, pprice, eq, ep, ex);
            if weif > spec_fx_mul(bot.wallet_exposure_limit as int, PCT_101 as int) {
                (
                    OrderModel {
                        qty: spec_round_nr(
                            spec_fx_sub(
                                spec_interpolate(
                                    bot.wallet_exposure_limit as int,
                                    we,
                                    weif,
                                    psize,
                                    spec_fx_add(psize, eq),
                                ),
                                psize,
                            ),
                            ex.qty_step as int,
                        ),
                        price: ep,
                        order_type: OrderType::EntryGridCroppedLong,
                    },
                    weif,
                    true,
                )
            } else {
                (
                    OrderModel { qty: eq, price: ep, order_type: OrderType::EntryGridNormalLong },
                    weif,
                    false,
                )
            }
        }
    }
}

/// One proposed grid re-entry, its exposure-if-filled, and whether cropping
/// fired.
fn calc_reentry_order(
    exchange_params: &ExchangeParams,
    bot_params: &BotParams,
    position: &Position,
    state_params: &StateParams,
    initial_entry: &Order,
) -> (r: (Order, i128, bool))
    requires
        exchange_valid(*exchange_params),
        bot_valid(*bot_params),
        state_valid(*state_params),
        -ROUND_IN <= position.size <= ROUND_IN,
        -BIG <= position.price <= BIG,
        fx_abs(initial_entry.qty as int) <= CAP + MAX_STEP,
    ensures
        order_matches(
            r.0,
            spec_reentry_order(
                *exchange_params,
                *state_params,
                *bot_params,
                position.size as int,
                position.price as int,
                initial_entry.qty as int,
            ).0,
        ),
        r.1 == spec_reentry_order(
            *exchange_params,
            *state_params,
            *bot_params,
            position.size as int,
            position.price as int,
            initial_entry.qty as int,
        ).1,
        r.2 == spec_reentry_order(
            *exchange_params,
            *state_params,
            *bot_params,
            position.size as int,
            position.price as int,
            initial_entry.qty as int,
        ).2,
        fx_abs(r.0.qty as int) <= CAP + MAX_STEP,
        0 <= r.0.price <= CAP + MAX_STEP,
{
    let wallet_exposure: i128 = calc_wallet_exposure(
        exchange_params.c_mult,
        state_params.balance,
        position.size,
        position.price,
    );
    if wallet_exposure >= fx_mul(bot_params.wallet_exposure_limit, PCT_999) {
        return (Order::default(), 0, false);
    }
    let entry_price: i128 = calc_reentry_price(
        position.price,
        wallet_exposure,
        state_params.order_book.bid,
        exchange_params,
        bot_params,
    );
    if entry_price == 0 {
        return (Order { qty: 0, price: 0, order_type: OrderType::Empty }, 0, false);
    }
    let entry_qty: i128 = fx_max(
        calc_reentry_qty(
            entry_price,
            state_params.balance,
            position.size,
            exchange_params,
            bot_params,
        ),
        initial_entry.qty,
    );
    let wallet_exposure_if_filled: i128 = calc_wallet_exposure_if_filled(
        state_params.balance,
        position.size,
        position.price,
        entry_qty,
        entry_price,
        exchange_params,
    );
    if wallet_exposure_if_filled > fx_mul(bot_params.wallet_exposure_limit, PCT_101) {
        let cropped: i128 = fx_sub(
            interpolate(
                bot_params.wallet_exposure_limit,
                wallet_exposure,
                wallet_exposure_if_filled,
                position.size,
                fx_add(position.size, entry_qty),
            ),
            position.size,
        );
        (
            Order {
                qty: round_nr(cropped, exchange_params.qty_step),
                price: entry_price,
                order_type: OrderType::EntryGridCroppedLong,
            },
            wallet_exposure_if_filled,
            true,
        )
    } else {
        (
            Order {
                qty: entry_qty,
                price: entry_price,
                order_type: OrderType::EntryGridNormalLong,
            },
            wallet_exposure_if_filled,
            false,
        )
    }
}

/// Model of the short grid re-entry: initial-entry delegation, the exposure
/// cap, one proposed re-entry, then the lookahead that may inflate it. The
/// re-entry path reuses the long-side proposal and its long-side tags, as
/// the strategy defines it.
pub open spec fn spec_next_grid_entry_short(
    ex: ExchangeParams,
    st: StateParams,
    bot: BotParams,
    pos: Position,
) -> OrderModel {
    if bot.wallet_exposure_limit == 0 || st.balance <= 0 {
        empty_model()
    } else {
        let ie = spec_initial_entry_short(ex, st, bot, pos);
        if ie.qty != 0 {
            ie
        } else {
            let we = spec_wallet_exposure(
                ex.c_mult as int,
                st.balance as int,
                pos.size as int,
                pos.price as int,
            );
            if we >= spec_fx_mul(bot.wallet_exposure_limit as int, PCT_999 as int) {
                empty_model()
            } else {
                let first = spec_reentry_order(ex, st, bot, pos.size as int, pos.price as int, ie.qty);
                if first.2 {
                    first.0
                } else {
                    let sim = spec_new_psize_pprice(
                        pos.size as int,
                        pos.price as int,
                        first.0.qty,
                        first.0.price,
                        ex.qty_step as int,
                    );
                    let next = spec_reentry_order(ex, st, bot, sim.0, sim.1, ie.qty);
                    if !next.2 {
                        first.0
                    } else {
                        let eddf = spec_fx_div(next.0.qty, sim.0);
                        if eddf < spec_fx_mul(
                            bot.entry_grid_double_down_factor as int,
                            PCT_25 as int,
                        ) {
                            OrderModel {
                                qty: spec_round_nr(
                                    spec_fx_sub(
                                        spec_interpolate(
                                            bot.wallet_exposure_limit as int,
                                            we,
                                            first.1,
                                            pos.size as int,
                                            spec_fx_add(pos.size as int, first.0.qty),
                                        ),
                                        pos.size as int,
                                    ),
                                    ex.qty_step as int,
                                ),
                                price: first.0.price,
                                order_type: OrderType::EntryGridInflatedLong,
                            }
                        } else {
                            OrderModel {
                                qty: first.0.qty,
                                price: first.0.price,
                                order_type: OrderType::EntryGridNormalLong,
                            }
                        }
                    }
                }
            }
        }
    }
}

/// Next short grid entry: initial entry while the position is small, then
/// laddered re-entries with cropping and lookahead inflation.
pub fn calc_next_grid_entry_short(
    exchange_params: &ExchangeParams,
    state_params: &StateParams,
    bot_params: &BotParams,
    position: &Position,
) -> (o: Order)
    requires
        exchange_valid(*exchange_params),
        state_valid(*state_params),
        bot_valid(*bot_params),
        position_valid(*position),
    ensures
        order_matches(
            o,
            spec_next_grid_entry_short(*exchange_params, *state_params, *bot_params, *position),
        ),
        fx_abs(o.qty as int) <= CAP + MAX_STEP,
        fx_abs(o.price as int) <= BIG,
{
    if bot_params.wallet_exposure_limit == 0 || state_params.balance <= 0 {
        return Order::default();
    }
    let initial_entry: Order = calc_initial_entry_short(
        exchange_params,
        state_params,
        bot_params,
        position,
    );
    if initial_entry.qty != 0 {
        return initial_entry;
    }
    let wallet_exposure: i128 = calc_wallet_exposure(
        exchange_params.c_mult,
        state_params.balance,
        position.size,
        position.price,
    );
    if wallet_exposure >= fx_mul(bot_params.wallet_exposure_limit, PCT_999) {
        return Order::default();
    }
    let first: (Order, i128, bool) = calc_reentry_order(
        exchange_params,
        bot_params,
        position,
        state_params,
        &initial_entry,
    );
    let reentry_order: Order = first.0;
    let wallet_exposure_if_filled: i128 = first.1;
    if first.2 {
        return reentry_order;
    }
    // preview the next rung
    let sim: (i128, i128) = calc_new_psize_pprice(
        position.size,
        position.price,
        reentry_order.qty,
        reentry_order.price,
        exchange_params.qty_step,
    );
    let next_psize: i128 = sim.0;
    let next_pprice: i128 = sim.1;
    let next: (Order, i128, bool) = calc_reentry_order(
        exchange_params,
        bot_params,
        &Position { size: next_psize, price: next_pprice },
        state_params,
        &initial_entry,
    );
    if !next.2 {
        return reentry_order;
    }
    let effective_double_down_factor: i128 = fx_div(next.0.qty, next_psize);
    if effective_double_down_factor < fx_mul(bot_params.entry_grid_double_down_factor, PCT_25) {
        // next rung would stall; inflate the current one to reach the cap
        let new_entry_qty: i128 = fx_sub(
            interpolate(
                bot_params.wallet_exposure_limit,
                wallet_exposure,
                wallet_exposure_if_filled,
                position.size,
                fx_add(position.size, reentry_order.qty),
            ),
            position.size,
        );
        Order {
            qty: round_nr(new_entry_qty, exchange_params.qty_step),
            price: reentry_order.price,
            order_type: OrderType::EntryGridInflatedLong,
        }
    } else {
        Order {
            qty: reentry_order.qty,
            price: reentry_order.price,
            order_type: OrderType::EntryGridNormalLong,
        }
    }
}

/// Model of the long trailing entry: initial-entry delegation, then the
/// retrace/rebound trigger; armed-but-untriggered yields the zero-quantity
/// trailing sentinel. At or above the exposure cap no order is placed; when
/// triggered, the re-entry is sized like a grid rung at the bid and cropped
/// to the cap.
pub open spec fn spec_trailing_entry_long(
    ex: ExchangeParams,
    st: StateParams,
    bot: BotParams,
    pos: Position,
    min_price_since_open: int,
    max_price_since_min: int,
) -> OrderModel {
    let iep = spec_ema_price_bid(
        ex.price_step as int,
        st.order_book.bid as int,
        st.ema_bands.lower as int,
        bot.entry_initial_ema_dist as int,
    );
    if iep <= ex.price_step {
        empty_model()
    } else {
        let ieq = spec_initial_entry_qty(ex, bot, st.balance as int, iep);
        if pos.size == 0 {
            OrderModel { qty: ieq, price: iep, order_type: OrderType::EntryInitialNormalLong }
        } else if pos.size < spec_fx_mul(ieq, PCT_80 as int) {
            OrderModel {
                qty: spec_max(
                    spec_min_entry_qty(iep, ex),
                    spec_round_dn(spec_fx_sub(ieq, pos.size as int), ex.qty_step as int),
                ),
                price: iep,
                order_type: OrderType::EntryInitialPartialLong,
            }
        } else if min_price_since_open > spec_fx_mul(
            pos.price as int,
            spec_fx_sub(SCALE as int, bot.entry_trailing_threshold_pct as int),
        ) {
            OrderModel { qty: 0, price: 0, order_type: OrderType::EntryTrailingNormalLong }
        } else if max_price_since_min < spec_fx_mul(
            min_price_since_open,
            spec_fx_add(SCALE as int, bot.entry_trailing_drawdown_pct as int),
        ) {
            OrderModel { qty: 0, price: 0, order_type: OrderType::EntryTrailingNormalLong }
        } else {
            let we = spec_wallet_exposure(
                ex.c_mult as int,
                st.balance as int,
                pos.size as int,
                pos.price as int,
            );
            if we >= spec_fx_mul(bot.wallet_exposure_limit as int, PCT_999 as int) {
                empty_model()
            } else {
                let rq = spec_max(
                    spec_reentry_qty(
                        st.order_book.bid as int,
                        st.balance as int,
                        pos.size as int,
                        ex,
                        bot,
                    ),
                    ieq,
                );
                let rp = spec_min(
                    st.order_book.bid as int,
                    spec_round_dn(
                        spec_fx_mul(
                            pos.price as int,
                            spec_fx_add(
                                spec_fx_sub(SCALE as int, bot.entry_trailing_threshold_pct as int),
                                bot.entry_trailing_drawdown_pct as int,
                            ),
                        ),
                        ex.price_step as int,
                    ),
                );
                let crop = spec_cropped_reentry_qty_long(
                    ex,
                    bot,
                    pos.size as int,
                    pos.price as int,
                    we,
                    st.balance as int,
                    rq,
                    rp,
                );
                if crop.1 < rq {
                    OrderModel {
                        qty: crop.1,
                        price: rp,
                        order_type: OrderType::EntryTrailingCroppedLong,
                    }
                } else {
                    OrderModel { qty: rq, price: rp, order_type: OrderType::EntryTrailingNormalLong }
                }
            }
        }
    }
}

/// Next long trailing entry, armed by a retrace below the position price and
/// triggered by a rebound off the tracked minimum.
pub fn calc_trailing_entry_long(
    exchange_params: &ExchangeParams,
    state_params: &StateParams,
    bot_params: &BotParams,
    position: &Position,
    min_price_since_open: i128,
    max_price_since_min: i128,
) -> (o: Order)
    requires
        exchange_valid(*exchange_params),
        state_valid(*state_params),
        bot_valid(*bot_params),
        position_valid(*position),
        -CAP <= min_price_since_open <= CAP,
        -CAP <= max_price_since_min <= CAP,
    ensures
        order_matches(
            o,
            spec_trailing_entry_long(
                *exchange_params,
                *state_params,
                *bot_params,
                *position,
                min_price_since_open as int,
                max_price_since_min as int,
            ),
        ),
        fx_abs(o.qty as int) <= CAP + MAX_STEP,
        fx_abs(o.price as int) <= BIG,
{
    let initial_entry_price: i128 = calc_ema_price_bid(
        exchange_params.price_step,
        state_params.order_book.bid,
        state_params.ema_bands.lower,
        bot_params.entry_initial_ema_dist,
    );
    if initial_entry_price <= exchange_params.price_step {
        return Order::default();
    }
    let initial_entry_qty: i128 = calc_initial_entry_qty(
        exchange_params,
        bot_params,
        state_params.balance,
        initial_entry_price,
    );
    if position.size == 0 {
        return Order {
            qty: initial_entry_qty,
            price: initial_entry_price,
            order_type: OrderType::EntryInitialNormalLong,
        };
    } else if position.size < fx_mul(initial_entry_qty, PCT_80) {
        return Order {
            qty: fx_max(
                calc_min_entry_qty(initial_entry_price, exchange_params),
                round_dn(fx_sub(initial_entry_qty, position.size), exchange_params.qty_step),
            ),
            price: initial_entry_price,
            order_type: OrderType::EntryInitialPartialLong,
        };
    }
    if min_price_since_open > fx_mul(
        position.price,
        fx_sub(SCALE, bot_params.entry_trailing_threshold_pct),
    ) {
        return Order { qty: 0, price: 0, order_type: OrderType::EntryTrailingNormalLong };
    }
    if max_price_since_min < fx_mul(
        min_price_since_open,
        fx_add(SCALE, bot_params.entry_trailing_drawdown_pct),
    ) {
        return Order { qty: 0, price: 0, order_type: OrderType::EntryTrailingNormalLong };
    }
    let wallet_exposure: i128 = calc_wallet_exposure(
        exchange_params.c_mult,
        state_params.balance,
        position.size,
        position.price,
    );
    if wallet_exposure >= fx_mul(bot_params.wallet_exposure_limit, PCT_999) {
        return Order::default();
    }
    let reentry_qty: i128 = fx_max(
        calc_reentry_qty(
            state_params.order_book.bid,
            state_params.balance,
            position.size,
            exchange_params,
            bot_params,
        ),
        initial_entry_qty,
    );
    let reentry_price: i128 = fx_min(
        state_params.order_book.bid,
        round_dn(
            fx_mul(
                position.price,
                fx_add(
                    fx_sub(SCALE, bot_params.entry_trailing_threshold_pct),
                    bot_params.entry_trailing_drawdown_pct,
                ),
            ),
            exchange_params.price_step,
        ),
    );
    let crop: (i128, i128) = calc_cropped_reentry_qty_long(
        exchange_params,
        bot_params,
        position,
        wallet_exposure,
        state_params.balance,
        reentry_qty,
        reentry_price,
    );
    let reentry_qty_cropped: i128 = crop.1;
    if reentry_qty_cropped < reentry_qty {
        Order {
            qty: reentry_qty_cropped,
            price: reentry_price,
            order_type: OrderType::EntryTrailingCroppedLong,
        }
    } else {
        Order {
            qty: reentry_qty,
            price: reentry_price,
            order_type: OrderType::EntryTrailingNormalLong,
        }
    }
}

/// Model of the short trailing entry: initial-entry delegation while flat,
/// then the rally/pullback trigger; armed-but-untriggered yields the
/// zero-quantity trailing sentinel. Quantities are negative; cropping solves
/// the same exposure line as the long side.
pub open spec fn spec_trailing_entry_short(
    ex: ExchangeParams,
    st: StateParams,
    bot: BotParams,
    pos: Position,
    max_price_since_open: int,
    min_price_since_max: int,
) -> OrderModel {
    if pos.size == 0 || bot.wallet_exposure_limit <= 0 {
        spec_initial_entry_short(ex, st, bot, pos)
    } else if max_price_since_open < spec_fx_mul(
        pos.price as int,
        spec_fx_add(SCALE as int, bot.entry_trailing_threshold_pct as int),
    ) {
        OrderModel { qty: 0, price: 0, order_type: OrderType::EntryTrailingNormalShort }
    } else if min_price_since_max > spec_fx_mul(
        max_price_since_open,
        spec_fx_sub(SCALE as int, bot.entry_trailing_drawdown_pct as int),
    ) {
        OrderModel { qty: 0, price: 0, order_type: OrderType::EntryTrailingNormalShort }
    } else {
        let we = spec_wallet_exposure(
            ex.c_mult as int,
            st.balance as int,
            pos.size as int,
            pos.price as int,
        );
        if we >= spec_fx_mul(bot.wallet_exposure_limit as int, PCT_999 as int) {
            empty_model()
        } else {
            let eq = -spec_reentry_qty(
                st.order_book.ask as int,
                st.balance as int,
                pos.size as int,
                ex,
                bot,
            );
            let weif = spec_wallet_exposure_if_filled(
                st.balance as int,
                pos.size as int,
                pos.price as int,
                eq,
                st.order_book.ask as int,
                ex,
            );
            let ep = spec_max(
                st.order_book.ask as int,
                spec_round_up(
                    spec_fx_mul(
                        pos.price as int,
                        spec_fx_sub(
                            spec_fx_add(SCALE as int, bot.entry_trailing_threshold_pct as int),
                            bot.entry_trailing_drawdown_pct as int,
                        ),
                    ),
                    ex.price_step as int,
                ),
            );
            if weif > spec_fx_mul(bot.wallet_exposure_limit as int, PCT_101 as int) {
                OrderModel {
                    qty: spec_round_nr(
                        spec_fx_sub(
                            spec_interpolate(
                                bot.wallet_exposure_limit as int,
                                we,
                                weif,
                                pos.size as int,
                                spec_fx_add(pos.size as int, eq),
                            ),
                            pos.size as int,
                        ),
                        ex.qty_step as int,
                    ),
                    price: ep,
                    order_type: OrderType::EntryTrailingCroppedShort,
                }
            } else {
                OrderModel { qty: eq, price: ep, order_type: OrderType::EntryTrailingNormalShort }
            }
        }
    }
}

/// Next short trailing entry, armed by a rally above the position price and
/// triggered by a pullback off the tracked maximum.
pub fn calc_trailing_entry_short(
    exchange_params: &ExchangeParams,
    state_params: &StateParams,
    bot_params: &BotParams,
    position: &Position,
    max_price_since_open: i128,
    min_price_since_max: i128,
) -> (o: Order)
    requires
        exchange_valid(*exchange_params),
        state_valid(*state_params),
        bot_valid(*bot_params),
        position_valid(*position),
        -CAP <= max_price_since_open <= CAP,
        -CAP <= min_price_since_max <= CAP,
    ensures
        order_matches(
            o,
            spec_trailing_entry_short(
                *exchange_params,
                *state_params,
                *bot_params,
                *position,
                max_price_since_open as int,
                min_price_since_max as int,
            ),
        ),
        fx_abs(o.qty as int) <= CAP + MAX_STEP,
        fx_abs(o.price as int) <= BIG,
{
    if position.size == 0 || bot_params.wallet_exposure_limit <= 0 {
        return calc_initial_entry_short(exchange_params, state_params, bot_params, position);
    }
    if max_price_since_open < fx_mul(
        position.price,
        fx_add(SCALE, bot_params.entry_trailing_threshold_pct),
    ) {
        return Order { qty: 0, price: 0, order_type: OrderType::EntryTrailingNormalShort };
    }
    if min_price_since_max > fx_mul(
        max_price_since_open,
        fx_sub(SCALE, bot_params.entry_trailing_drawdown_pct),
    ) {
        return Order { qty: 0, price: 0, order_type: OrderType::EntryTrailingNormalShort };
    }
    let wallet_exposure: i128 = calc_wallet_exposure(
        exchange_params.c_mult,
        state_params.balance,
        position.size,
        position.price,
    );
    if wallet_exposure >= fx_mul(bot_params.wallet_exposure_limit, PCT_999) {
        return Order::default();
    }
    let entry_qty: i128 = -calc_reentry_qty(
        state_params.order_book.ask,
        state_params.balance,
        position.size,
        exchange_params,
        bot_params,
    );
    let wallet_exposure_if_filled: i128 = calc_wallet_exposure_if_filled(
        state_params.balance,
        position.size,
        position.price,
        entry_qty,
        state_params.order_book.ask,
        exchange_params,
    );
    let entry_price: i128 = fx_max(
        state_params.order_book.ask,
        round_up(
            fx_mul(
                position.price,
                fx_sub(
                    fx_add(SCALE, bot_params.entry_trailing_threshold_pct),
                    bot_params.entry_trailing_drawdown_pct,
                ),
            ),
            exchange_params.price_step,
        ),
    );
    if wallet_exposure_if_filled > fx_mul(bot_params.wallet_exposure_limit, PCT_101) {
        let cropped: i128 = fx_sub(
            interpolate(
                bot_params.wallet_exposure_limit,
                wallet_exposure,
                wallet_exposure_if_filled,
                position.size,
                fx_add(position.size, entry_qty),
            ),
            position.size,
        );
        Order {
            qty: round_nr(cropped, exchange_params.qty_step),
            price: entry_price,
            order_type: OrderType::EntryTrailingCroppedShort,
        }
    } else {
        Order {
            qty: entry_qty,
            price: entry_price,
            order_type: OrderType::EntryTrailingNormalShort,
        }
    }
}

/// Model of the regime blender: pure trailing at or beyond unit ratio, pure
/// grid at zero, and otherwise the trailing-first (or grid-first) engine
/// under a temporarily rescaled exposure limit until the exposure fraction
/// crosses the blend ratio.
pub open spec fn spec_next_entry_long(
    ex: ExchangeParams,
    st: StateParams,
    bot: BotParams,
    pos: Position,
    min_price_since_open: int,
    max_price_since_min: int,
) -> OrderModel {
    if bot.wallet_exposure_limit == 0 || st.balance <= 0 {
        empty_model()
    } else if bot.entry_trailing_grid_ratio >= SCALE || bot.entry_trailing_grid_ratio <= -SCALE {
        spec_trailing_entry_long(ex, st, bot, pos, min_price_since_open, max_price_since_min)
    } else if bot.entry_trailing_grid_ratio == 0 {
        spec_grid_entry_long(ex, st, bot, pos)
    } else {
        let we = spec_wallet_exposure(
            ex.c_mult as int,
            st.balance as int,
            pos.size as int,
            pos.price as int,
        );
        let wer = spec_fx_div(we, bot.wallet_exposure_limit as int);
        if bot.entry_trailing_grid_ratio > 0 {
            if wer < bot.entry_trailing_grid_ratio {
                if we == 0 {
                    spec_trailing_entry_long(
                        ex,
                        st,
                        bot,
                        pos,
                        min_price_since_open,
                        max_price_since_min,
                    )
                } else {
                    let scaled = spec_fx_mul(
                        spec_fx_mul(
                            bot.wallet_exposure_limit as int,
                            bot.entry_trailing_grid_ratio as int,
                        ),
                        PCT_101 as int,
                    );
                    spec_trailing_entry_long(
                        ex,
                        st,
                        BotParams { wallet_exposure_limit: scaled as i128, ..bot },
                        pos,
                        min_price_since_open,
                        max_price_since_min,
                    )
                }
            } else {
                spec_grid_entry_long(ex, st, bot, pos)
            }
        } else {
            if wer < spec_fx_add(SCALE as int, bot.entry_trailing_grid_ratio as int) {
                if we == 0 {
                    spec_grid_entry_long(ex, st, bot, pos)
                } else {
                    let scaled = spec_fx_mul(
                        spec_fx_mul(
                            bot.wallet_exposure_limit as int,
                            spec_fx_add(SCALE as int, bot.entry_trailing_grid_ratio as int),
                        ),
                        PCT_101 as int,
                    );
                    spec_grid_entry_long(
                        ex,
                        st,
                        BotParams { wallet_exposure_limit: scaled as i128, ..bot },
                        pos,
                    )
                }
            } else {
                spec_trailing_entry_long(
                    ex,
                    st,
                    bot,
                    pos,
                    min_price_since_open,
                    max_price_since_min,
                )
            }
        }
    }
}

/// Next long entry: blends the trailing and grid engines by the configured
/// ratio of the exposure budget each may use first.
pub fn calc_next_entry_long(
    exchange_params: &ExchangeParams,
    state_params: &StateParams,
    bot_params: &BotParams,
    position: &Position,
    min_price_since_open: i128,
    max_price_since_min: i128,
) -> (o: Order)
    requires
        exchange_valid(*exchange_params),
        state_valid(*state_params),
        bot_valid(*bot_params),
        position_valid(*position),
        -CAP <= min_price_since_open <= CAP,
        -CAP <= max_price_since_min <= CAP,
    ensures
        order_matches(
            o,
            spec_next_entry_long(
                *exchange_params,
                *state_params,
                *bot_params,
                *position,
                min_price_since_open as int,
                max_price_since_min as int,
            ),
        ),
        fx_abs(o.qty as int) <= CAP + MAX_STEP,
        fx_abs(o.price as int) <= BIG,
{
    if bot_params.wallet_exposure_limit == 0 || state_params.balance <= 0 {
        return Order::default();
    }
    if bot_params.entry_trailing_grid_ratio >= SCALE || bot_params.entry_trailing_grid_ratio
        <= -SCALE {
        return calc_trailing_entry_long(
            exchange_params,
            state_params,
            bot_params,
            position,
            min_price_since_open,
            max_price_since_min,
        );
    } else if bot_params.entry_trailing_grid_ratio == 0 {
        return calc_grid_entry_long(exchange_params, state_params, bot_params, position);
    }
    let wallet_exposure: i128 = calc_wallet_exposure(
        exchange_params.c_mult,
        state_params.balance,
        position.size,
        position.price,
    );
    let wallet_exposure_ratio: i128 = fx_div(wallet_exposure, bot_params.wallet_exposure_limit);
    if bot_params.entry_trailing_grid_ratio > 0 {
        // trailing first
        if wallet_exposure_ratio < bot_params.entry_trailing_grid_ratio {
            if wallet_exposure == 0 {
                calc_trailing_entry_long(
                    exchange_params,
                    state_params,
                    bot_params,
                    position,
                    min_price_since_open,
                    max_price_since_min,
                )
            } else {
                let scaled: i128 = fx_mul(
                    fx_mul(
                        bot_params.wallet_exposure_limit,
                        bot_params.entry_trailing_grid_ratio,
                    ),
                    PCT_101,
                );
                let bot_params_modified: BotParams = BotParams {
                    wallet_exposure_limit: scaled,
                    ..*bot_params
                };
                calc_trailing_entry_long(
                    exchange_params,
                    state_params,
                    &bot_params_modified,
                    position,
                    min_price_since_open,
                    max_price_since_min,
                )
            }
        } else {
            calc_grid_entry_long(exchange_params, state_params, bot_params, position)
        }
    } else {
        // grid first
        if wallet_exposure_ratio < fx_add(SCALE, bot_params.entry_trailing_grid_ratio) {
            if wallet_exposure == 0 {
                calc_grid_entry_long(exchange_params, state_params, bot_params, position)
            } else {
                let scaled: i128 = fx_mul(
                    fx_mul(
                        bot_params.wallet_exposure_limit,
                        fx_add(SCALE, bot_params.entry_trailing_grid_ratio),
                    ),
                    PCT_101,
                );
                let bot_params_modified: BotParams = BotParams {
                    wallet_exposure_limit: scaled,
                    ..*bot_params
                };
                calc_grid_entry_long(exchange_params, state_params, &bot_params_modified, position)
            }
        } else {
            calc_trailing_entry_long(
                exchange_params,
                state_params,
                bot_params,
                position,
                min_price_since_open,
                max_price_since_min,
            )
        }
    }
}

} // verus!
