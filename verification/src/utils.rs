//! Numeric primitives: cost/quantity conversion, wallet exposure,
//! volume-weighted position merge, linear interpolation and EMA-anchored
//! pricing, each proved equal to its mathematical model.

use vstd::prelude::*;
use crate::fixed::{
    fx_abs, fx_add, fx_div, fx_max, fx_min, fx_mul, fx_sub, round_dn, round_nr, round_up,
    spec_fx_add, spec_fx_div, spec_fx_mul, spec_fx_sub, spec_max, spec_min, spec_round_dn,
    spec_round_nr, spec_round_up, BIG, CAP, MAX_STEP, ROUND_IN, SCALE,
};
use crate::types::ExchangeParams;

verus! {

/// Quantity worth `cost` at `price`, under contract multiplier `c_mult`.
pub open spec fn spec_cost_to_qty(cost: int, price: int, c_mult: int) -> int {
    spec_fx_div(cost, spec_fx_mul(price, c_mult))
}

/// `qty = cost / (price * c_mult)`.
pub fn cost_to_qty(cost: i128, price: i128, c_mult: i128) -> (r: i128)
    requires
        -BIG <= cost <= BIG,
        -BIG <= price <= BIG,
        -BIG <= c_mult <= BIG,
    ensures
        r == spec_cost_to_qty(cost as int, price as int, c_mult as int),
        -CAP <= r <= CAP,
{
    fx_div(cost, fx_mul(price, c_mult))
}

/// Ratio of absolute position notional to balance.
pub open spec fn spec_wallet_exposure(c_mult: int, balance: int, size: int, price: int) -> int {
    spec_fx_div(spec_fx_mul(spec_fx_mul(fx_abs(size), price), c_mult), balance)
}

/// `|size| * price * c_mult / balance`.
pub fn calc_wallet_exposure(c_mult: i128, balance: i128, size: i128, price: i128) -> (r: i128)
    requires
        -BIG <= c_mult <= BIG,
        -BIG <= balance <= BIG,
        -BIG <= size <= BIG,
        -BIG <= price <= BIG,
    ensures
        r == spec_wallet_exposure(c_mult as int, balance as int, size as int, price as int),
        -CAP <= r <= CAP,
{
    let size_abs: i128 = if size < 0 {
        -size
    } else {
        size
    };
    fx_div(fx_mul(fx_mul(size_abs, price), c_mult), balance)
}

/// Volume-weighted merge of a fill into a position: new size is the sum
/// rounded to `qty_step`, new price the size-weighted average of the two
/// prices. A zero fill leaves the position unchanged; a fill into a flat
/// position is taken as is; a merge that rounds to zero size clears both.
pub open spec fn spec_new_psize_pprice(
    psize: int,
    pprice: int,
    qty: int,
    price: int,
    qty_step: int,
) -> (int, int) {
    if qty == 0 {
        (psize, pprice)
    } else if psize == 0 {
        (qty, price)
    } else {
        let new_psize = spec_round_nr(spec_fx_add(psize, qty), qty_step);
        if new_psize == 0 {
            (0, 0)
        } else {
            (
                new_psize,
                spec_fx_add(
                    spec_fx_mul(pprice, spec_fx_div(psize, new_psize)),
                    spec_fx_mul(price, spec_fx_div(qty, new_psize)),
                ),
            )
        }
    }
}

/// Merge a hypothetical fill `(qty, price)` into position `(psize, pprice)`.
pub fn calc_new_psize_pprice(
    psize: i128,
    pprice: i128,
    qty: i128,
    price: i128,
    qty_step: i128,
) -> (r: (i128, i128))
    requires
        -BIG <= psize <= BIG,
        -BIG <= pprice <= BIG,
        -BIG <= qty <= BIG,
        -BIG <= price <= BIG,
        0 < qty_step <= MAX_STEP,
    ensures
        r.0 == spec_new_psize_pprice(
            psize as int,
            pprice as int,
            qty as int,
            price as int,
            qty_step as int,
        ).0,
        r.1 == spec_new_psize_pprice(
            psize as int,
            pprice as int,
            qty as int,
            price as int,
            qty_step as int,
        ).1,
        fx_abs(r.0 as int) <= spec_max(
            spec_max(fx_abs(psize as int), fx_abs(qty as int)),
            CAP + qty_step,
        ),
        fx_abs(r.1 as int) <= spec_max(spec_max(fx_abs(pprice as int), fx_abs(price as int)), CAP as int),
{
    if qty == 0 {
        (psize, pprice)
    } else if psize == 0 {
        (qty, price)
    } else {
        let new_psize: i128 = round_nr(fx_add(psize, qty), qty_step);
        if new_psize == 0 {
            (0, 0)
        } else {
            let new_pprice: i128 = fx_add(
                fx_mul(pprice, fx_div(psize, new_psize)),
                fx_mul(price, fx_div(qty, new_psize)),
            );
            (new_psize, new_pprice)
        }
    }
}

/// Wallet exposure after volume-weighted-merging a hypothetical fill into the
/// position; sizes are taken absolute and quantized to `qty_step` first.
pub open spec fn spec_wallet_exposure_if_filled(
    balance: int,
    psize: int,
    pprice: int,
    qty: int,
    price: int,
    ex: ExchangeParams,
) -> int {
    let psize_r = spec_round_nr(fx_abs(psize), ex.qty_step as int);
    let qty_r = spec_round_nr(fx_abs(qty), ex.qty_step as int);
    let merged = spec_new_psize_pprice(psize_r, pprice, qty_r, price, ex.qty_step as int);
    spec_wallet_exposure(ex.c_mult as int, balance, merged.0, merged.1)
}

/// Exposure that would result if `qty` filled at `price` against the current
/// position.
pub fn calc_wallet_exposure_if_filled(
    balance: i128,
    psize: i128,
    pprice: i128,
    qty: i128,
    price: i128,
    ex: &ExchangeParams,
) -> (r: i128)
    requires
        -BIG <= balance <= BIG,
        -ROUND_IN <= psize <= ROUND_IN,
        -BIG <= pprice <= BIG,
        -ROUND_IN <= qty <= ROUND_IN,
        -BIG <= price <= BIG,
        0 < ex.qty_step <= MAX_STEP,
        -BIG <= ex.c_mult <= BIG,
    ensures
        r == spec_wallet_exposure_if_filled(
            balance as int,
            psize as int,
            pprice as int,
            qty as int,
            price as int,
            *ex,
        ),
        -CAP <= r <= CAP,
{
    let psize_abs: i128 = if psize < 0 {
        -psize
    } else {
        psize
    };
    let qty_abs: i128 = if qty < 0 {
        -qty
    } else {
        qty
    };
    let psize_r: i128 = round_nr(psize_abs, ex.qty_step);
    let qty_r: i128 = round_nr(qty_abs, ex.qty_step);
    let merged: (i128, i128) = calc_new_psize_pprice(psize_r, pprice, qty_r, price, ex.qty_step);
    calc_wallet_exposure(ex.c_mult, balance, merged.0, merged.1)
}

/// Linear solve through the two points `(y0, x0)` and `(y1, x1)`, evaluated
/// at `target`: `x0 + (target - y0) * (x1 - x0) / (y1 - y0)`.
pub open spec fn spec_interpolate(target: int, y0: int, y1: int, x0: int, x1: int) -> int {
    spec_fx_add(
        x0,
        spec_fx_div(spec_fx_mul(spec_fx_sub(target, y0), spec_fx_sub(x1, x0)), spec_fx_sub(y1, y0)),
    )
}

/// Linear interpolation between two points.
pub fn interpolate(target: i128, y0: i128, y1: i128, x0: i128, x1: i128) -> (r: i128)
    requires
        -BIG <= target <= BIG,
        -BIG <= y0 <= BIG,
        -BIG <= y1 <= BIG,
        -BIG <= x0 <= BIG,
        -BIG <= x1 <= BIG,
    ensures
        r == spec_interpolate(target as int, y0 as int, y1 as int, x0 as int, x1 as int),
        -CAP <= r <= CAP,
{
    fx_add(x0, fx_div(fx_mul(fx_sub(target, y0), fx_sub(x1, x0)), fx_sub(y1, y0)))
}

/// Bid-side anchor price: the band edge pushed down by `dist`, quantized
/// down, and clamped toward the book bid.
pub open spec fn spec_ema_price_bid(price_step: int, bid: int, lower: int, dist: int) -> int {
    spec_min(bid, spec_round_dn(spec_fx_mul(lower, spec_fx_sub(SCALE as int, dist)), price_step))
}

/// `min(bid, round_dn(lower * (1 - dist), price_step))`.
pub fn calc_ema_price_bid(price_step: i128, bid: i128, lower: i128, dist: i128) -> (r: i128)
    requires
        0 < price_step <= MAX_STEP,
        -BIG <= bid <= BIG,
        -BIG <= lower <= BIG,
        -BIG <= dist <= BIG,
    ensures
        r == spec_ema_price_bid(price_step as int, bid as int, lower as int, dist as int),
        -BIG <= r <= BIG,
{
    fx_min(bid, round_dn(fx_mul(lower, fx_sub(SCALE, dist)), price_step))
}

/// Ask-side anchor price: the band edge pushed up by `dist`, quantized up,
/// and clamped toward the book ask.
pub open spec fn spec_ema_price_ask(price_step: int, ask: int, upper: int, dist: int) -> int {
    spec_max(ask, spec_round_up(spec_fx_mul(upper, spec_fx_add(SCALE as int, dist)), price_step))
}

/// `max(ask, round_up(upper * (1 + dist), price_step))`.
pub fn calc_ema_price_ask(price_step: i128, ask: i128, upper: i128, dist: i128) -> (r: i128)
    requires
        0 < price_step <= MAX_STEP,
        -BIG <= ask <= BIG,
        -BIG <= upper <= BIG,
        -BIG <= dist <= BIG,
    ensures
        r == spec_ema_price_ask(price_step as int, ask as int, upper as int, dist as int),
        -BIG <= r <= BIG,
{
    fx_max(ask, round_up(fx_mul(upper, fx_add(SCALE, dist)), price_step))
}

} // verus!
