//! Trailing close engine and the bare trailing entry that assumes an
//! established position, each proved equal to its mathematical model.

use vstd::prelude::*;
use crate::entries::{
    calc_reentry_qty, spec_reentry_qty, PCT_101, PCT_999,
};
use crate::fixed::{
    fx_abs, fx_add, fx_max, fx_min, fx_mul, fx_sub, round_dn, round_nr, round_up,
    spec_fx_add, spec_fx_mul, spec_fx_sub, spec_max, spec_min, spec_round_dn, spec_round_nr,
    spec_round_up, BIG, CAP, MAX_STEP, SCALE,
};
use crate::types::{
    bot_valid, empty_model, exchange_valid, order_matches, position_valid, state_valid, BotParams,
    ExchangeParams, Order, OrderModel, OrderType, Position, StateParams,
};
use crate::utils::{
    calc_wallet_exposure, calc_wallet_exposure_if_filled, interpolate, spec_interpolate,
    spec_wallet_exposure, spec_wallet_exposure_if_filled,
};

verus! {

/// Price of the trailing full exit: the position price marked up by the net
/// threshold over drawdown, quantized up, and clamped toward the book ask.
pub open spec fn spec_trailing_close_price(
    ex: ExchangeParams,
    st: StateParams,
    bot: BotParams,
    pos: Position,
) -> int {
    spec_max(
        st.order_book.ask as int,
        spec_round_up(
            spec_fx_mul(
                pos.price as int,
                spec_fx_add(
                    SCALE as int,
                    spec_max(
                        0,
                        spec_fx_sub(
                            bot.close_trailing_threshold_pct as int,
                            bot.close_trailing_drawdown_pct as int,
                        ),
                    ),
                ),
            ),
            ex.price_step as int,
        ),
    )
}

/// Model of the long trailing close: no action while flat; with a zero
/// drawdown the full exit is immediate and unconditional; otherwise the
/// rally/pullback pattern must have completed, and until then no action.
pub open spec fn spec_trailing_close_long(
    ex: ExchangeParams,
    st: StateParams,
    bot: BotParams,
    pos: Position,
    max_price_since_open: int,
    min_price_since_max: int,
) -> OrderModel {
    if pos.size == 0 {
        empty_model()
    } else if bot.close_trailing_drawdown_pct == 0 {
        OrderModel {
            qty: -(pos.size as int),
            price: spec_trailing_close_price(ex, st, bot, pos),
            order_type: OrderType::CloseTrailingLong,
        }
    } else if max_price_since_open < spec_fx_mul(
        pos.price as int,
        spec_fx_add(SCALE as int, bot.close_trailing_threshold_pct as int),
    ) {
        empty_model()
    } else if min_price_since_max > spec_fx_mul(
        max_price_since_open,
        spec_fx_sub(SCALE as int, bot.close_trailing_drawdown_pct as int),
    ) {
        empty_model()
    } else {
        OrderModel {
            qty: -(pos.size as int),
            price: spec_trailing_close_price(ex, st, bot, pos),
            order_type: OrderType::CloseTrailingLong,
        }
    }
}

/// Full exit of a long position, immediate at a zero drawdown and otherwise
/// armed by a rally past the threshold and triggered by a pullback off the
/// tracked maximum.
pub fn calc_trailing_close_long(
    exchange_params: &ExchangeParams,
    state_params: &StateParams,
    bot_params: &BotParams,
    position: &Position,
    max_price_since_open: i128,
    min_price_since_max: i128,
) -> (o: Order)
    requires
        exchange_valid(*exchange_params),
        state_valid(*state_params),
        bot_valid(*bot_params),
        position_valid(*position),
        -CAP <= max_price_since_open <= CAP,
        -CAP <= min_price_since_max <= CAP,
    ensures
        order_matches(
            o,
            spec_trailing_close_long(
                *exchange_params,
                *state_params,
                *bot_params,
                *position,
                max_price_since_open as int,
                min_price_since_max as int,
            ),
        ),
        fx_abs(o.qty as int) <= CAP,
        fx_abs(o.price as int) <= BIG,
{
    if position.size == 0 {
        return Order::default();
    }
    let close_price: i128 = fx_max(
        state_params.order_book.ask,
        round_up(
            fx_mul(
                position.price,
                fx_add(
                    SCALE,
                    fx_max(
                        0,
                        fx_sub(
                            bot_params.close_trailing_threshold_pct,
                            bot_params.close_trailing_drawdown_pct,
                        ),
                    ),
                ),
            ),
            exchange_params.price_step,
        ),
    );
    if bot_params.close_trailing_drawdown_pct == 0 {
        return Order {
            qty: -position.size,
            price: close_price,
            order_type: OrderType::CloseTrailingLong,
        };
    }
    if max_price_since_open < fx_mul(
        position.price,
        fx_add(SCALE, bot_params.close_trailing_threshold_pct),
    ) {
        return Order::default();
    }
    if min_price_since_max > fx_mul(
        max_price_since_open,
        fx_sub(SCALE, bot_params.close_trailing_drawdown_pct),
    ) {
        return Order::default();
    }
    Order { qty: -position.size, price: close_price, order_type: OrderType::CloseTrailingLong }
}

/// Model of the bare long trailing entry: it assumes an established
/// position, so while flat, unconfigured, untriggered or at the exposure cap
/// it places nothing; when triggered it sizes a re-entry at the bid and
/// crops it to the cap.
pub open spec fn spec_trailing_reentry_long(
    ex: ExchangeParams,
    st: StateParams,
    bot: BotParams,
    pos: Position,
    min_price_since_open: int,
    max_price_since_min: int,
) -> OrderModel {
    if pos.size == 0 || bot.wallet_exposure_limit <= 0 {
        empty_model()
    } else if min_price_since_open > spec_fx_mul(
        pos.price as int,
        spec_fx_sub(SCALE as int, bot.entry_trailing_threshold_pct as int),
    ) {
        empty_model()
    } else if max_price_since_min < spec_fx_mul(
        min_price_since_open,
        spec_fx_add(SCALE as int, bot.entry_trailing_drawdown_pct as int),
    ) {
        empty_model()
    } else {
        let we = spec_wallet_exposure(
            ex.c_mult as int,
            st.balance as int,
            pos.size as int,
            pos.price as int,
        );
        if we >= spec_fx_mul(bot.wallet_exposure_limit as int, PCT_999 as int) {
            empty_model()
        } else {
            let eq = spec_reentry_qty(
                st.order_book.bid as int,
                st.balance as int,
                pos.size as int,
                ex,
                bot,
            );
            let weif = spec_wallet_exposure_if_filled(
                st.balance as int,
                pos.size as int,
                pos.price as int,
                eq,
                st.order_book.bid as int,
                ex,
            );
            let ep = spec_min(
                st.order_book.bid as int,
                spec_round_dn(
                    spec_fx_mul(
                        pos.price as int,
                        spec_fx_add(
                            spec_fx_sub(SCALE as int, bot.entry_trailing_threshold_pct as int),
                            bot.entry_trailing_drawdown_pct as int,
                        ),
                    ),
                    ex.price_step as int,
                ),
            );
            if weif > spec_fx_mul(bot.wallet_exposure_limit as int, PCT_101 as int) {
                OrderModel {
                    qty: spec_round_nr(
                        spec_fx_sub(
                            spec_interpolate(
                                bot.wallet_exposure_limit as int,
                                we,
                                weif,
                                pos.size as int,
                                spec_fx_add(pos.size as int, eq),
                            ),
                            pos.size as int,
                        ),
                        ex.qty_step as int,
                    ),
                    price: ep,
                    order_type: OrderType::EntryTrailingCroppedLong,
                }
            } else {
                OrderModel { qty: eq, price: ep, order_type: OrderType::EntryTrailingNormalLong }
            }
        }
    }
}

/// Next long trailing re-entry for an already established position; without
/// one, or while untriggered, no order is placed.
pub fn calc_trailing_entry_long(
    exchange_params: &ExchangeParams,
    state_params: &StateParams,
    bot_params: &BotParams,
    position: &Position,
    min_price_since_open: i128,
    max_price_since_min: i128,
) -> (o: Order)
    requires
        exchange_valid(*exchange_params),
        state_valid(*state_params),
        bot_valid(*bot_params),
        position_valid(*position),
        -CAP <= min_price_since_open <= CAP,
        -CAP <= max_price_since_min <= CAP,
    ensures
        order_matches(
            o,
            spec_trailing_reentry_long(
                *exchange_params,
                *state_params,
                *bot_params,
                *position,
                min_price_since_open as int,
                max_price_since_min as int,
            ),
        ),
        fx_abs(o.qty as int) <= CAP + MAX_STEP,
        fx_abs(o.price as int) <= BIG,
{
    if position.size == 0 || bot_params.wallet_exposure_limit <= 0 {
        return Order::default();
    }
    if min_price_since_open > fx_mul(
        position.price,
        fx_sub(SCALE, bot_params.entry_trailing_threshold_pct),
    ) {
        return Order::default();
    }
    if max_price_since_min < fx_mul(
        min_price_since_open,
        fx_add(SCALE, bot_params.entry_trailing_drawdown_pct),
    ) {
        return Order::default();
    }
    let wallet_exposure: i128 = calc_wallet_exposure(
        exchange_params.c_mult,
        state_params.balance,
        position.size,
        position.price,
    );
    if wallet_exposure >= fx_mul(bot_params.wallet_exposure_limit, PCT_999) {
        return Order::default();
    }
    let entry_qty: i128 = calc_reentry_qty(
        state_params.order_book.bid,
        state_params.balance,
        position.size,
        exchange_params,
        bot_params,
    );
    let wallet_exposure_if_filled: i128 = calc_wallet_exposure_if_filled(
        state_params.balance,
        position.size,
        position.price,
        entry_qty,
        state_params.order_book.bid,
        exchange_params,
    );
    let entry_price: i128 = fx_min(
        state_params.order_book.bid,
        round_dn(
            fx_mul(
                position.price,
                fx_add(
                    fx_sub(SCALE, bot_params.entry_trailing_threshold_pct),
                    bot_params.entry_trailing_drawdown_pct,
                ),
            ),
            exchange_params.price_step,
        ),
    );
    if wallet_exposure_if_filled > fx_mul(bot_params.wallet_exposure_limit, PCT_101) {
        let cropped: i128 = fx_sub(
            interpolate(
                bot_params.wallet_exposure_limit,
                wallet_exposure,
                wallet_exposure_if_filled,
                position.size,
                fx_add(position.size, entry_qty),
            ),
            position.size,
        );
        Order {
            qty: round_nr(cropped, exchange_params.qty_step),
            price: entry_price,
            order_type: OrderType::EntryTrailingCroppedLong,
        }
    } else {
        Order {
            qty: entry_qty,
            price: entry_price,
            order_type: OrderType::EntryTrailingNormalLong,
        }
    }
}

} // verus!
