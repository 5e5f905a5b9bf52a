//! Cross-cutting guarantees of the decision functions, stated over the
//! models that the executable functions are proved to return: determinism,
//! the sign of order quantities per side, price quantization, the
//! exposure-cap boundary, and the cropping interpolation identity.

use vstd::prelude::*;
use vstd::arithmetic::div_mod::{
    lemma_div_is_ordered, lemma_div_multiples_vanish, lemma_div_pos_is_pos,
    lemma_fundamental_div_mod, lemma_mod_bound, lemma_small_mod,
};
use vstd::arithmetic::mul::lemma_mul_inequality;
use crate::fixed::{
    fx_abs, lemma_fx_div_nonneg, lemma_fx_div_nonpos, lemma_fx_mul_nonneg, lemma_fx_mul_nonpos,
    lemma_fx_mul_pct_ge, lemma_fx_mul_pct_le, lemma_round_dn_props, lemma_round_nr_props,
    lemma_round_up_props, spec_fx_add, spec_fx_div, spec_fx_mul, spec_fx_sub, spec_max, spec_min,
    spec_round_dn, CAP, SCALE,
};
use crate::types::{
    bot_valid, empty_model, exchange_valid, order_matches, position_valid, state_valid, BotParams,
    ExchangeParams, Order, OrderModel, OrderType, Position, StateParams,
};
use crate::utils::{
    spec_ema_price_bid, spec_interpolate, spec_wallet_exposure, spec_wallet_exposure_if_filled,
};
use crate::entries::{
    spec_cropped_reentry_qty_long, spec_grid_entry_long, spec_initial_entry_long,
    spec_initial_entry_qty, spec_initial_entry_short, spec_next_entry_long,
    spec_next_grid_entry_short, spec_reentry_price, spec_reentry_qty, spec_trailing_entry_long,
    spec_trailing_entry_short, PCT_101, PCT_80, PCT_999,
};
use crate::trailing::{spec_trailing_close_long, spec_trailing_reentry_long};

verus! {

/// Determinism: each decision function's contract pins its order down to a
/// model of the inputs alone, so two calls with identical inputs return
/// identical orders, field for field.
pub proof fn lemma_order_determinism(o1: Order, o2: Order, m: OrderModel)
    requires
        order_matches(o1, m),
        order_matches(o2, m),
    ensures
        o1 == o2,
{
}

/// A long initial entry never sells: its quantity is non-negative.
pub proof fn lemma_initial_entry_long_qty_nonneg(
    ex: ExchangeParams,
    st: StateParams,
    bot: BotParams,
    pos: Position,
)
    requires
        exchange_valid(ex),
        state_valid(st),
        bot_valid(bot),
        position_valid(pos),
    ensures
        spec_initial_entry_long(ex, st, bot, pos).qty >= 0,
{
}

/// A short initial entry never buys: its quantity is non-positive.
pub proof fn lemma_initial_entry_short_qty_nonpos(
    ex: ExchangeParams,
    st: StateParams,
    bot: BotParams,
    pos: Position,
)
    requires
        exchange_valid(ex),
        state_valid(st),
        bot_valid(bot),
        position_valid(pos),
    ensures
        spec_initial_entry_short(ex, st, bot, pos).qty <= 0,
{
}

/// The exposure either side of one proposed long re-entry: the current
/// wallet exposure, and the exposure a fill of that re-entry would produce.
/// These are the two points of the cropping interpolation line.
pub open spec fn grid_reentry_exposure_pair(
    ex: ExchangeParams,
    st: StateParams,
    bot: BotParams,
    pos: Position,
) -> (int, int) {
    let iep = spec_ema_price_bid(
        ex.price_step as int,
        st.order_book.bid as int,
        st.ema_bands.lower as int,
        bot.entry_initial_ema_dist as int,
    );
    let ieq = spec_initial_entry_qty(ex, bot, st.balance as int, iep);
    let we = spec_wallet_exposure(
        ex.c_mult as int,
        st.balance as int,
        pos.size as int,
        pos.price as int,
    );
    let rp = spec_reentry_price(pos.price as int, we, st.order_book.bid as int, ex, bot);
    let rq = spec_max(spec_reentry_qty(rp, st.balance as int, pos.size as int, ex, bot), ieq);
    (we, spec_wallet_exposure_if_filled(st.balance as int, pos.size as int, pos.price as int, rq, rp, ex))
}

/// A long grid entry never sells, provided filling the proposed rung does
/// not lower the measured exposure (quantization can lower it only in
/// degenerate corners, where the inflated rung may come out negative).
pub proof fn lemma_grid_entry_long_qty_nonneg(
    ex: ExchangeParams,
    st: StateParams,
    bot: BotParams,
    pos: Position,
)
    requires
        exchange_valid(ex),
        state_valid(st),
        bot_valid(bot),
        position_valid(pos),
        pos.size >= 0,
        grid_reentry_exposure_pair(ex, st, bot, pos).1 >= grid_reentry_exposure_pair(
            ex,
            st,
            bot,
            pos,
        ).0,
    ensures
        spec_grid_entry_long(ex, st, bot, pos).qty >= 0,
{
    let iep = spec_ema_price_bid(
        ex.price_step as int,
        st.order_book.bid as int,
        st.ema_bands.lower as int,
        bot.entry_initial_ema_dist as int,
    );
    let ieq = spec_initial_entry_qty(ex, bot, st.balance as int, iep);
    let we = spec_wallet_exposure(
        ex.c_mult as int,
        st.balance as int,
        pos.size as int,
        pos.price as int,
    );
    let rp = spec_reentry_price(pos.price as int, we, st.order_book.bid as int, ex, bot);
    let rq = spec_max(spec_reentry_qty(rp, st.balance as int, pos.size as int, ex, bot), ieq);
    let crop = spec_cropped_reentry_qty_long(
        ex,
        bot,
        pos.size as int,
        pos.price as int,
        we,
        st.balance as int,
        rq,
        rp,
    );
    let weif = crop.0;
    let cap999 = spec_fx_mul(bot.wallet_exposure_limit as int, PCT_999 as int);
    let cap101 = spec_fx_mul(bot.wallet_exposure_limit as int, PCT_101 as int);
    lemma_fx_mul_pct_le(bot.wallet_exposure_limit as int, PCT_999 as int);
    lemma_fx_mul_pct_ge(bot.wallet_exposure_limit as int, PCT_101 as int);
    if bot.wallet_exposure_limit != 0 && st.balance > 0 && iep > ex.price_step && pos.size != 0
        && !(pos.size < spec_fx_mul(ieq, PCT_80 as int)) && we < cap999 && rp > 0 {
        let x1 = spec_fx_add(pos.size as int, rq);
        let dt = spec_fx_sub(bot.wallet_exposure_limit as int, we);
        let dx = spec_fx_sub(x1, pos.size as int);
        let num = spec_fx_mul(dt, dx);
        lemma_fx_mul_nonneg(dt, dx);
        // cropped or inflated, the interpolation denominator is non-negative:
        // from the crop condition in the one case, from the hypothesis in the
        // other — so the interpolated size is at or above the current one
        let den = spec_fx_sub(weif, we);
        lemma_fx_div_nonneg(num, den);
        let interp = spec_fx_add(pos.size as int, spec_fx_div(num, den));
        lemma_round_nr_props(spec_fx_sub(interp, pos.size as int), ex.qty_step as int);
    }
}

/// Except for the inflated rung — whose interpolation can extrapolate when
/// quantization lowers the measured exposure — a long grid entry never
/// sells, with no hypothesis beyond validity.
pub proof fn lemma_grid_entry_long_qty_nonneg_unless_inflated(
    ex: ExchangeParams,
    st: StateParams,
    bot: BotParams,
    pos: Position,
)
    requires
        exchange_valid(ex),
        state_valid(st),
        bot_valid(bot),
        position_valid(pos),
        pos.size >= 0,
    ensures
        spec_grid_entry_long(ex, st, bot, pos).order_type != OrderType::EntryGridInflatedLong
            ==> spec_grid_entry_long(ex, st, bot, pos).qty >= 0,
{
    let iep = spec_ema_price_bid(
        ex.price_step as int,
        st.order_book.bid as int,
        st.ema_bands.lower as int,
        bot.entry_initial_ema_dist as int,
    );
    let ieq = spec_initial_entry_qty(ex, bot, st.balance as int, iep);
    let we = spec_wallet_exposure(
        ex.c_mult as int,
        st.balance as int,
        pos.size as int,
        pos.price as int,
    );
    let rp = spec_reentry_price(pos.price as int, we, st.order_book.bid as int, ex, bot);
    let rq = spec_max(spec_reentry_qty(rp, st.balance as int, pos.size as int, ex, bot), ieq);
    let crop = spec_cropped_reentry_qty_long(
        ex,
        bot,
        pos.size as int,
        pos.price as int,
        we,
        st.balance as int,
        rq,
        rp,
    );
    let weif = crop.0;
    let cap999 = spec_fx_mul(bot.wallet_exposure_limit as int, PCT_999 as int);
    let cap101 = spec_fx_mul(bot.wallet_exposure_limit as int, PCT_101 as int);
    lemma_fx_mul_pct_le(bot.wallet_exposure_limit as int, PCT_999 as int);
    lemma_fx_mul_pct_ge(bot.wallet_exposure_limit as int, PCT_101 as int);
    if bot.wallet_exposure_limit != 0 && st.balance > 0 && iep > ex.price_step && pos.size != 0
        && !(pos.size < spec_fx_mul(ieq, PCT_80 as int)) && we < cap999 && rp > 0 && weif
        > cap101 {
        let x1 = spec_fx_add(pos.size as int, rq);
        let dt = spec_fx_sub(bot.wallet_exposure_limit as int, we);
        let dx = spec_fx_sub(x1, pos.size as int);
        let num = spec_fx_mul(dt, dx);
        lemma_fx_mul_nonneg(dt, dx);
        let den = spec_fx_sub(weif, we);
        lemma_fx_div_nonneg(num, den);
        let interp = spec_fx_add(pos.size as int, spec_fx_div(num, den));
        lemma_round_nr_props(spec_fx_sub(interp, pos.size as int), ex.qty_step as int);
    }
}

/// A long trailing entry never sells: its quantity is non-negative.
pub proof fn lemma_trailing_entry_long_qty_nonneg(
    ex: ExchangeParams,
    st: StateParams,
    bot: BotParams,
    pos: Position,
    min_price_since_open: int,
    max_price_since_min: int,
)
    requires
        exchange_valid(ex),
        state_valid(st),
        bot_valid(bot),
        position_valid(pos),
        pos.size >= 0,
    ensures
        spec_trailing_entry_long(ex, st, bot, pos, min_price_since_open, max_price_since_min).qty
            >= 0,
{
    let we = spec_wallet_exposure(
        ex.c_mult as int,
        st.balance as int,
        pos.size as int,
        pos.price as int,
    );
    let cap999 = spec_fx_mul(bot.wallet_exposure_limit as int, PCT_999 as int);
    let cap101 = spec_fx_mul(bot.wallet_exposure_limit as int, PCT_101 as int);
    lemma_fx_mul_pct_le(bot.wallet_exposure_limit as int, PCT_999 as int);
    lemma_fx_mul_pct_ge(bot.wallet_exposure_limit as int, PCT_101 as int);
    let iep = spec_ema_price_bid(
        ex.price_step as int,
        st.order_book.bid as int,
        st.ema_bands.lower as int,
        bot.entry_initial_ema_dist as int,
    );
    let ieq = spec_initial_entry_qty(ex, bot, st.balance as int, iep);
    let rq = spec_max(
        spec_reentry_qty(st.order_book.bid as int, st.balance as int, pos.size as int, ex, bot),
        ieq,
    );
    let rp = spec_min(
        st.order_book.bid as int,
        spec_round_dn(
            spec_fx_mul(
                pos.price as int,
                spec_fx_add(
                    spec_fx_sub(SCALE as int, bot.entry_trailing_threshold_pct as int),
                    bot.entry_trailing_drawdown_pct as int,
                ),
            ),
            ex.price_step as int,
        ),
    );
    let crop = spec_cropped_reentry_qty_long(
        ex,
        bot,
        pos.size as int,
        pos.price as int,
        we,
        st.balance as int,
        rq,
        rp,
    );
    let weif = crop.0;
    if we < cap999 && weif > cap101 {
        let x1 = spec_fx_add(pos.size as int, rq);
        let dt = spec_fx_sub(bot.wallet_exposure_limit as int, we);
        let dx = spec_fx_sub(x1, pos.size as int);
        let num = spec_fx_mul(dt, dx);
        lemma_fx_mul_nonneg(dt, dx);
        let den = spec_fx_sub(weif, we);
        lemma_fx_div_nonneg(num, den);
        let interp = spec_fx_add(pos.size as int, spec_fx_div(num, den));
        lemma_round_nr_props(spec_fx_sub(interp, pos.size as int), ex.qty_step as int);
    }
}

/// The bare long trailing re-entry never sells either: its quantity is
/// non-negative.
pub proof fn lemma_trailing_reentry_long_qty_nonneg(
    ex: ExchangeParams,
    st: StateParams,
    bot: BotParams,
    pos: Position,
    min_price_since_open: int,
    max_price_since_min: int,
)
    requires
        exchange_valid(ex),
        state_valid(st),
        bot_valid(bot),
        position_valid(pos),
        pos.size >= 0,
    ensures
        spec_trailing_reentry_long(ex, st, bot, pos, min_price_since_open, max_price_since_min).qty
            >= 0,
{
    let we = spec_wallet_exposure(
        ex.c_mult as int,
        st.balance as int,
        pos.size as int,
        pos.price as int,
    );
    let cap999 = spec_fx_mul(bot.wallet_exposure_limit as int, PCT_999 as int);
    let cap101 = spec_fx_mul(bot.wallet_exposure_limit as int, PCT_101 as int);
    lemma_fx_mul_pct_le(bot.wallet_exposure_limit as int, PCT_999 as int);
    lemma_fx_mul_pct_ge(bot.wallet_exposure_limit as int, PCT_101 as int);
    let eq = spec_reentry_qty(
        st.order_book.bid as int,
        st.balance as int,
        pos.size as int,
        ex,
        bot,
    );
    let weif = spec_wallet_exposure_if_filled(
        st.balance as int,
        pos.size as int,
        pos.price as int,
        eq,
        st.order_book.bid as int,
        ex,
    );
    if pos.size != 0 && bot.wallet_exposure_limit > 0 && we < cap999 && weif > cap101 {
        let x1 = spec_fx_add(pos.size as int, eq);
        let dt = spec_fx_sub(bot.wallet_exposure_limit as int, we);
        let dx = spec_fx_sub(x1, pos.size as int);
        let num = spec_fx_mul(dt, dx);
        lemma_fx_mul_nonneg(dt, dx);
        let den = spec_fx_sub(weif, we);
        lemma_fx_div_nonneg(num, den);
        let interp = spec_fx_add(pos.size as int, spec_fx_div(num, den));
        lemma_round_nr_props(spec_fx_sub(interp, pos.size as int), ex.qty_step as int);
    }
}

/// A short trailing entry never buys: its quantity is non-positive.
pub proof fn lemma_trailing_entry_short_qty_nonpos(
    ex: ExchangeParams,
    st: StateParams,
    bot: BotParams,
    pos: Position,
    max_price_since_open: int,
    min_price_since_max: int,
)
    requires
        exchange_valid(ex),
        state_valid(st),
        bot_valid(bot),
        position_valid(pos),
        pos.size <= 0,
    ensures
        spec_trailing_entry_short(ex, st, bot, pos, max_price_since_open, min_price_since_max).qty
            <= 0,
{
    lemma_initial_entry_short_qty_nonpos(ex, st, bot, pos);
    let we = spec_wallet_exposure(
        ex.c_mult as int,
        st.balance as int,
        pos.size as int,
        pos.price as int,
    );
    let cap999 = spec_fx_mul(bot.wallet_exposure_limit as int, PCT_999 as int);
    let cap101 = spec_fx_mul(bot.wallet_exposure_limit as int, PCT_101 as int);
    lemma_fx_mul_pct_le(bot.wallet_exposure_limit as int, PCT_999 as int);
    lemma_fx_mul_pct_ge(bot.wallet_exposure_limit as int, PCT_101 as int);
    let eq = -spec_reentry_qty(
        st.order_book.ask as int,
        st.balance as int,
        pos.size as int,
        ex,
        bot,
    );
    let weif = spec_wallet_exposure_if_filled(
        st.balance as int,
        pos.size as int,
        pos.price as int,
        eq,
        st.order_book.ask as int,
        ex,
    );
    if pos.size != 0 && bot.wallet_exposure_limit > 0 && we < cap999 && weif > cap101 {
        let x1 = spec_fx_add(pos.size as int, eq);
        let dt = spec_fx_sub(bot.wallet_exposure_limit as int, we);
        let dx = spec_fx_sub(x1, pos.size as int);
        let num = spec_fx_mul(dt, dx);
        lemma_fx_mul_nonpos(dt, dx);
        let den = spec_fx_sub(weif, we);
        lemma_fx_div_nonpos(num, den);
        let interp = spec_fx_add(pos.size as int, spec_fx_div(num, den));
        lemma_round_nr_props(spec_fx_sub(interp, pos.size as int), ex.qty_step as int);
    }
}

/// A blended long entry never sells, except possibly for the inflated grid
/// rung: whichever engine the blend ratio picks, under the unscaled or the
/// rescaled exposure limit, the quantity is non-negative.
pub proof fn lemma_next_entry_long_qty_nonneg_unless_inflated(
    ex: ExchangeParams,
    st: StateParams,
    bot: BotParams,
    pos: Position,
    min_price_since_open: int,
    max_price_since_min: int,
)
    requires
        exchange_valid(ex),
        state_valid(st),
        bot_valid(bot),
        position_valid(pos),
        pos.size >= 0,
    ensures
        spec_next_entry_long(
            ex,
            st,
            bot,
            pos,
            min_price_since_open,
            max_price_since_min,
        ).order_type != OrderType::EntryGridInflatedLong ==> spec_next_entry_long(
            ex,
            st,
            bot,
            pos,
            min_price_since_open,
            max_price_since_min,
        ).qty >= 0,
{
    let wel = bot.wallet_exposure_limit as int;
    let ratio = bot.entry_trailing_grid_ratio as int;
    let we = spec_wallet_exposure(
        ex.c_mult as int,
        st.balance as int,
        pos.size as int,
        pos.price as int,
    );
    if bot.wallet_exposure_limit == 0 || st.balance <= 0 {
    } else if ratio >= SCALE || ratio <= -(SCALE as int) {
        lemma_trailing_entry_long_qty_nonneg(
            ex,
            st,
            bot,
            pos,
            min_price_since_open,
            max_price_since_min,
        );
    } else if ratio == 0 {
        lemma_grid_entry_long_qty_nonneg_unless_inflated(ex, st, bot, pos);
    } else if ratio > 0 {
        let wer = spec_fx_div(we, wel);
        if wer < ratio {
            if we == 0 {
                lemma_trailing_entry_long_qty_nonneg(
                    ex,
                    st,
                    bot,
                    pos,
                    min_price_since_open,
                    max_price_since_min,
                );
            } else {
                lemma_fx_mul_nonneg(wel, ratio);
                let scaled = spec_fx_mul(spec_fx_mul(wel, ratio), PCT_101 as int);
                lemma_fx_mul_nonneg(spec_fx_mul(wel, ratio), PCT_101 as int);
                let bot2 = BotParams { wallet_exposure_limit: scaled as i128, ..bot };
                lemma_trailing_entry_long_qty_nonneg(
                    ex,
                    st,
                    bot2,
                    pos,
                    min_price_since_open,
                    max_price_since_min,
                );
            }
        } else {
            lemma_grid_entry_long_qty_nonneg_unless_inflated(ex, st, bot, pos);
        }
    } else {
        let wer = spec_fx_div(we, wel);
        if wer < spec_fx_add(SCALE as int, ratio) {
            if we == 0 {
                lemma_grid_entry_long_qty_nonneg_unless_inflated(ex, st, bot, pos);
            } else {
                lemma_fx_mul_nonneg(wel, spec_fx_add(SCALE as int, ratio));
                let scaled = spec_fx_mul(
                    spec_fx_mul(wel, spec_fx_add(SCALE as int, ratio)),
                    PCT_101 as int,
                );
                lemma_fx_mul_nonneg(
                    spec_fx_mul(wel, spec_fx_add(SCALE as int, ratio)),
                    PCT_101 as int,
                );
                let bot2 = BotParams { wallet_exposure_limit: scaled as i128, ..bot };
                lemma_grid_entry_long_qty_nonneg_unless_inflated(ex, st, bot2, pos);
            }
        } else {
            lemma_trailing_entry_long_qty_nonneg(
                ex,
                st,
                bot,
                pos,
                min_price_since_open,
                max_price_since_min,
            );
        }
    }
}

/// When the short grid entry falls back to initial-entry sizing, the order
/// still never buys: its quantity is non-positive. (The re-entry rungs of
/// the short grid reuse the long-side proposal and its tags, as the strategy
/// defines them, and carry positive quantities.)
pub proof fn lemma_short_grid_initial_qty_nonpos(
    ex: ExchangeParams,
    st: StateParams,
    bot: BotParams,
    pos: Position,
)
    requires
        exchange_valid(ex),
        state_valid(st),
        bot_valid(bot),
        position_valid(pos),
    ensures
        (spec_next_grid_entry_short(ex, st, bot, pos).order_type
            == OrderType::EntryInitialNormalShort || spec_next_grid_entry_short(
            ex,
            st,
            bot,
            pos,
        ).order_type == OrderType::EntryInitialPartialShort) ==> spec_next_grid_entry_short(
            ex,
            st,
            bot,
            pos,
        ).qty <= 0,
{
    lemma_initial_entry_short_qty_nonpos(ex, st, bot, pos);
}

/// A long trailing close is a full exit: whenever it places an order at all,
/// the quantity is exactly the negated position size, so for a long position
/// it never buys.
pub proof fn lemma_trailing_close_long_full_exit(
    ex: ExchangeParams,
    st: StateParams,
    bot: BotParams,
    pos: Position,
    max_price_since_open: int,
    min_price_since_max: int,
)
    requires
        exchange_valid(ex),
        state_valid(st),
        bot_valid(bot),
        position_valid(pos),
    ensures
        spec_trailing_close_long(
            ex,
            st,
            bot,
            pos,
            max_price_since_open,
            min_price_since_max,
        ).order_type == OrderType::CloseTrailingLong ==> spec_trailing_close_long(
            ex,
            st,
            bot,
            pos,
            max_price_since_open,
            min_price_since_max,
        ).qty == -(pos.size as int),
        pos.size >= 0 ==> spec_trailing_close_long(
            ex,
            st,
            bot,
            pos,
            max_price_since_open,
            min_price_since_max,
        ).qty <= 0,
{
}

/// At or beyond the slack-adjusted exposure cap an established long position
/// gets no grid entry: exactly at `limit * 0.999` the result is the sentinel.
pub proof fn lemma_grid_entry_long_empty_at_cap(
    ex: ExchangeParams,
    st: StateParams,
    bot: BotParams,
    pos: Position,
)
    requires
        exchange_valid(ex),
        state_valid(st),
        bot_valid(bot),
        position_valid(pos),
        pos.size != 0,
        pos.size >= spec_fx_mul(
            spec_initial_entry_qty(
                ex,
                bot,
                st.balance as int,
                spec_ema_price_bid(
                    ex.price_step as int,
                    st.order_book.bid as int,
                    st.ema_bands.lower as int,
                    bot.entry_initial_ema_dist as int,
                ),
            ),
            PCT_80 as int,
        ),
        spec_wallet_exposure(
            ex.c_mult as int,
            st.balance as int,
            pos.size as int,
            pos.price as int,
        ) >= spec_fx_mul(bot.wallet_exposure_limit as int, PCT_999 as int),
    ensures
        spec_grid_entry_long(ex, st, bot, pos) == empty_model(),
{
}

/// At or beyond the slack-adjusted exposure cap an established, triggered
/// long trailing entry places nothing: exactly at `limit * 0.999` the result
/// is the sentinel.
pub proof fn lemma_trailing_entry_long_empty_at_cap(
    ex: ExchangeParams,
    st: StateParams,
    bot: BotParams,
    pos: Position,
    min_price_since_open: int,
    max_price_since_min: int,
)
    requires
        exchange_valid(ex),
        state_valid(st),
        bot_valid(bot),
        position_valid(pos),
        pos.size != 0,
        pos.size >= spec_fx_mul(
            spec_initial_entry_qty(
                ex,
                bot,
                st.balance as int,
                spec_ema_price_bid(
                    ex.price_step as int,
                    st.order_book.bid as int,
                    st.ema_bands.lower as int,
                    bot.entry_initial_ema_dist as int,
                ),
            ),
            PCT_80 as int,
        ),
        min_price_since_open <= spec_fx_mul(
            pos.price as int,
            spec_fx_sub(SCALE as int, bot.entry_trailing_threshold_pct as int),
        ),
        max_price_since_min >= spec_fx_mul(
            min_price_since_open,
            spec_fx_add(SCALE as int, bot.entry_trailing_drawdown_pct as int),
        ),
        spec_wallet_exposure(
            ex.c_mult as int,
            st.balance as int,
            pos.size as int,
            pos.price as int,
        ) >= spec_fx_mul(bot.wallet_exposure_limit as int, PCT_999 as int),
    ensures
        spec_trailing_entry_long(ex, st, bot, pos, min_price_since_open, max_price_since_min)
            == empty_model(),
{
}

/// The same boundary for the bare trailing re-entry: established position,
/// triggered pattern, exposure at or beyond `limit * 0.999` — no order.
pub proof fn lemma_trailing_reentry_long_empty_at_cap(
    ex: ExchangeParams,
    st: StateParams,
    bot: BotParams,
    pos: Position,
    min_price_since_open: int,
    max_price_since_min: int,
)
    requires
        exchange_valid(ex),
        state_valid(st),
        bot_valid(bot),
        position_valid(pos),
        pos.size != 0,
        min_price_since_open <= spec_fx_mul(
            pos.price as int,
            spec_fx_sub(SCALE as int, bot.entry_trailing_threshold_pct as int),
        ),
        max_price_since_min >= spec_fx_mul(
            min_price_since_open,
            spec_fx_add(SCALE as int, bot.entry_trailing_drawdown_pct as int),
        ),
        spec_wallet_exposure(
            ex.c_mult as int,
            st.balance as int,
            pos.size as int,
            pos.price as int,
        ) >= spec_fx_mul(bot.wallet_exposure_limit as int, PCT_999 as int),
    ensures
        spec_trailing_reentry_long(ex, st, bot, pos, min_price_since_open, max_price_since_min)
            == empty_model(),
{
}

/// Zero is a multiple of every positive step.
proof fn lemma_zero_multiple(s: int)
    requires
        0 < s,
    ensures
        0int % s == 0,
{
    lemma_small_mod(0nat, s as nat);
}

/// Every price a long entry can carry — the EMA anchor, a grid re-entry
/// price, the armed sentinel's zero, or the empty sentinel's zero — is a
/// multiple of the price step, provided the book bid is quantized.
pub proof fn lemma_entry_long_price_quantized(
    ex: ExchangeParams,
    st: StateParams,
    bot: BotParams,
    pos: Position,
    min_price_since_open: int,
    max_price_since_min: int,
)
    requires
        exchange_valid(ex),
        state_valid(st),
        bot_valid(bot),
        position_valid(pos),
        (st.order_book.bid as int) % (ex.price_step as int) == 0,
    ensures
        spec_initial_entry_long(ex, st, bot, pos).price % (ex.price_step as int) == 0,
        spec_grid_entry_long(ex, st, bot, pos).price % (ex.price_step as int) == 0,
        spec_trailing_entry_long(
            ex,
            st,
            bot,
            pos,
            min_price_since_open,
            max_price_since_min,
        ).price % (ex.price_step as int) == 0,
        spec_trailing_reentry_long(
            ex,
            st,
            bot,
            pos,
            min_price_since_open,
            max_price_since_min,
        ).price % (ex.price_step as int) == 0,
{
    let ps = ex.price_step as int;
    lemma_zero_multiple(ps);
    let band = spec_fx_mul(
        st.ema_bands.lower as int,
        spec_fx_sub(SCALE as int, bot.entry_initial_ema_dist as int),
    );
    lemma_round_dn_props(band, ps);
    let we = spec_wallet_exposure(
        ex.c_mult as int,
        st.balance as int,
        pos.size as int,
        pos.price as int,
    );
    let multiplier = spec_fx_mul(
        spec_fx_div(we, bot.wallet_exposure_limit as int),
        bot.entry_grid_spacing_weight as int,
    );
    let stepped_arg = spec_fx_mul(
        pos.price as int,
        spec_fx_sub(
            SCALE as int,
            spec_fx_mul(
                bot.entry_grid_spacing_pct as int,
                spec_fx_add(SCALE as int, multiplier),
            ),
        ),
    );
    lemma_round_dn_props(stepped_arg, ps);
    let trail_arg = spec_fx_mul(
        pos.price as int,
        spec_fx_add(
            spec_fx_sub(SCALE as int, bot.entry_trailing_threshold_pct as int),
            bot.entry_trailing_drawdown_pct as int,
        ),
    );
    lemma_round_dn_props(trail_arg, ps);
}

/// Every price a short entry or a long trailing close can carry is a
/// multiple of the price step, provided the book ask is quantized.
pub proof fn lemma_short_and_close_price_quantized(
    ex: ExchangeParams,
    st: StateParams,
    bot: BotParams,
    pos: Position,
    max_price_since_open: int,
    min_price_since_max: int,
)
    requires
        exchange_valid(ex),
        state_valid(st),
        bot_valid(bot),
        position_valid(pos),
        (st.order_book.ask as int) % (ex.price_step as int) == 0,
    ensures
        spec_initial_entry_short(ex, st, bot, pos).price % (ex.price_step as int) == 0,
        spec_trailing_entry_short(
            ex,
            st,
            bot,
            pos,
            max_price_since_open,
            min_price_since_max,
        ).price % (ex.price_step as int) == 0,
        spec_trailing_close_long(
            ex,
            st,
            bot,
            pos,
            max_price_since_open,
            min_price_since_max,
        ).price % (ex.price_step as int) == 0,
{
    let ps = ex.price_step as int;
    lemma_zero_multiple(ps);
    let band = spec_fx_mul(
        st.ema_bands.upper as int,
        spec_fx_add(SCALE as int, bot.entry_initial_ema_dist as int),
    );
    lemma_round_up_props(band, ps);
    let trail_arg = spec_fx_mul(
        pos.price as int,
        spec_fx_sub(
            spec_fx_add(SCALE as int, bot.entry_trailing_threshold_pct as int),
            bot.entry_trailing_drawdown_pct as int,
        ),
    );
    lemma_round_up_props(trail_arg, ps);
    let close_arg = spec_fx_mul(
        pos.price as int,
        spec_fx_add(
            SCALE as int,
            spec_max(
                0,
                spec_fx_sub(
                    bot.close_trailing_threshold_pct as int,
                    bot.close_trailing_drawdown_pct as int,
                ),
            ),
        ),
    );
    lemma_round_up_props(close_arg, ps);
}

/// Every price a blended long entry can carry is a multiple of the price
/// step, whichever engine and exposure limit the blend picks, provided the
/// book bid is quantized.
#[verifier::rlimit(60)]
pub proof fn lemma_next_entry_long_price_quantized(
    ex: ExchangeParams,
    st: StateParams,
    bot: BotParams,
    pos: Position,
    min_price_since_open: int,
    max_price_since_min: int,
)
    requires
        exchange_valid(ex),
        state_valid(st),
        bot_valid(bot),
        position_valid(pos),
        (st.order_book.bid as int) % (ex.price_step as int) == 0,
    ensures
        spec_next_entry_long(
            ex,
            st,
            bot,
            pos,
            min_price_since_open,
            max_price_since_min,
        ).price % (ex.price_step as int) == 0,
{
    let wel = bot.wallet_exposure_limit as int;
    let ratio = bot.entry_trailing_grid_ratio as int;
    lemma_zero_multiple(ex.price_step as int);
    lemma_entry_long_price_quantized(ex, st, bot, pos, min_price_since_open, max_price_since_min);
    if 0 < ratio < SCALE {
        lemma_fx_mul_nonneg(wel, ratio);
        let scaled = spec_fx_mul(spec_fx_mul(wel, ratio), PCT_101 as int);
        lemma_fx_mul_nonneg(spec_fx_mul(wel, ratio), PCT_101 as int);
        let bot2 = BotParams { wallet_exposure_limit: scaled as i128, ..bot };
        lemma_entry_long_price_quantized(
            ex,
            st,
            bot2,
            pos,
            min_price_since_open,
            max_price_since_min,
        );
    } else if -(SCALE as int) < ratio < 0 {
        lemma_fx_mul_nonneg(wel, spec_fx_add(SCALE as int, ratio));
        let scaled = spec_fx_mul(spec_fx_mul(wel, spec_fx_add(SCALE as int, ratio)), PCT_101 as int);
        lemma_fx_mul_nonneg(spec_fx_mul(wel, spec_fx_add(SCALE as int, ratio)), PCT_101 as int);
        let bot2 = BotParams { wallet_exposure_limit: scaled as i128, ..bot };
        lemma_entry_long_price_quantized(
            ex,
            st,
            bot2,
            pos,
            min_price_since_open,
            max_price_since_min,
        );
    }
}

/// The interpolation identity: within the saturation-free range the
/// interpolated abscissa lies between `x0` and `x1` and solves the two-point
/// line through `(y0, x0)` and `(y1, x1)` at `target` to within one
/// arithmetic atom — the products `(target - y0)(x1 - x0)` and
/// `(r - x0)(y1 - y0)` differ by less than `(y1 - y0) + SCALE`.
pub proof fn lemma_interpolate_on_line(target: int, y0: int, y1: int, x0: int, x1: int)
    requires
        0 <= y0 <= target <= y1 <= CAP,
        y0 < y1,
        0 <= x0 <= x1 <= CAP,
        (target - y0) * (x1 - x0) <= CAP * (SCALE as int),
    ensures
        x0 <= spec_interpolate(target, y0, y1, x0, x1) <= x1,
        0 <= (target - y0) * (x1 - x0) - (spec_interpolate(target, y0, y1, x0, x1) - x0) * (y1
            - y0) < (y1 - y0) + SCALE,
{
    let s = SCALE as int;
    let dt = target - y0;
    let dx = x1 - x0;
    let dy = y1 - y0;
    assert(dt * dx >= 0) by (nonlinear_arith)
        requires
            dt >= 0,
            dx >= 0,
    ;
    lemma_div_pos_is_pos(dt * dx, s);
    let m = dt * dx / s;
    lemma_div_is_ordered(dt * dx, CAP * s, s);
    lemma_div_multiples_vanish(CAP as int, s);
    assert(s * (CAP as int) == (CAP as int) * s) by (nonlinear_arith);
    assert(m <= CAP);
    assert(spec_fx_mul(dt, dx) == m);
    lemma_fundamental_div_mod(dt * dx, s);
    lemma_mod_bound(dt * dx, s);
    let r2 = dt * dx - s * m;
    assert(m * s >= 0) by (nonlinear_arith)
        requires
            m >= 0,
            s > 0,
    ;
    lemma_div_pos_is_pos(m * s, dy);
    let q = m * s / dy;
    assert(s * m == m * s) by (nonlinear_arith);
    assert(m * s <= dt * dx);
    lemma_mul_inequality(dt, dy, dx);
    lemma_div_is_ordered(m * s, dy * dx, dy);
    lemma_div_multiples_vanish(dx, dy);
    assert(q <= dx);
    assert(spec_fx_div(m, dy) == q);
    lemma_fundamental_div_mod(m * s, dy);
    lemma_mod_bound(m * s, dy);
    let r3 = m * s - dy * q;
    assert(spec_fx_add(x0, q) == x0 + q);
    let r = x0 + q;
    assert(spec_interpolate(target, y0, y1, x0, x1) == r);
    assert((r - x0) * dy == dy * q) by (nonlinear_arith)
        requires
            r - x0 == q,
    ;
    assert(dt * dx - (r - x0) * dy == r2 + r3);
}

/// When cropping triggers, the cropped quantity solves the two-point
/// exposure/size line at the exposure limit: before quantization it lands on
/// the line to within one arithmetic atom, and quantization then moves it by
/// at most half a quantity step. The exposure a fill of the cropped entry
/// would produce therefore equals the limit up to those tolerances.
pub proof fn lemma_cropping_reaches_limit(
    ex: ExchangeParams,
    bot: BotParams,
    psize: int,
    pprice: int,
    we: int,
    balance: int,
    entry_qty: int,
    entry_price: int,
)
    requires
        exchange_valid(ex),
        bot_valid(bot),
        0 <= psize,
        0 <= entry_qty,
        psize + entry_qty <= CAP,
        0 <= we <= bot.wallet_exposure_limit,
        (bot.wallet_exposure_limit - we) * entry_qty <= CAP * (SCALE as int),
        spec_wallet_exposure_if_filled(balance, psize, pprice, entry_qty, entry_price, ex)
            > spec_fx_mul(bot.wallet_exposure_limit as int, PCT_101 as int),
    ensures
        ({
            let wel = bot.wallet_exposure_limit as int;
            let weif = spec_wallet_exposure_if_filled(
                balance,
                psize,
                pprice,
                entry_qty,
                entry_price,
                ex,
            );
            let target_size = spec_interpolate(wel, we, weif, psize, psize + entry_qty);
            let cropped = spec_cropped_reentry_qty_long(
                ex,
                bot,
                psize,
                pprice,
                we,
                balance,
                entry_qty,
                entry_price,
            ).1;
            &&& psize <= target_size <= psize + entry_qty
            &&& 0 <= (wel - we) * entry_qty - (target_size - psize) * (weif - we) < (weif - we)
                + SCALE
            &&& 2 * fx_abs(cropped - (target_size - psize)) <= ex.qty_step
        }),
{
    let wel = bot.wallet_exposure_limit as int;
    let weif = spec_wallet_exposure_if_filled(balance, psize, pprice, entry_qty, entry_price, ex);
    lemma_fx_mul_pct_ge(wel, PCT_101 as int);
    assert(weif <= CAP);
    assert(spec_fx_add(psize, entry_qty) == psize + entry_qty);
    lemma_interpolate_on_line(wel, we, weif, psize, psize + entry_qty);
    let target_size = spec_interpolate(wel, we, weif, psize, psize + entry_qty);
    assert(spec_fx_sub(target_size, psize) == target_size - psize);
    lemma_round_nr_props(target_size - psize, ex.qty_step as int);
}

} // verus!
