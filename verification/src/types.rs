//! Input and output types of the decision functions.
//!
//! All numeric fields are fixed-point values (see [`crate::fixed`]). The
//! validity predicates state the well-formedness the callers must supply:
//! magnitudes within the arithmetic range, positive exchange increments, and
//! non-negative strategy percentages.

use vstd::prelude::*;
use crate::fixed::{CAP, MAX_STEP};

verus! {

/// Exchange quantization rules for one instrument.
#[derive(Clone, Copy, PartialEq, Eq, Structural, Debug)]
pub struct ExchangeParams {
    /// Price increment: every order price is a multiple of it.
    pub price_step: i128,
    /// Quantity increment: every order quantity is a multiple of it.
    pub qty_step: i128,
    /// Smallest quantity the exchange accepts.
    pub min_qty: i128,
    /// Smallest order cost the exchange accepts.
    pub min_cost: i128,
    /// Contract multiplier converting quantity to notional.
    pub c_mult: i128,
}

/// Top of the order book.
#[derive(Clone, Copy, PartialEq, Eq, Structural, Debug)]
pub struct OrderBook {
    pub bid: i128,
    pub ask: i128,
}

/// Precomputed indicator band edges.
#[derive(Clone, Copy, PartialEq, Eq, Structural, Debug)]
pub struct EmaBands {
    pub lower: i128,
    pub upper: i128,
}

/// Balance, order-book and indicator snapshot for one evaluation.
#[derive(Clone, Copy, PartialEq, Eq, Structural, Debug)]
pub struct StateParams {
    /// Account equity used as the exposure denominator.
    pub balance: i128,
    pub order_book: OrderBook,
    pub ema_bands: EmaBands,
}

/// Strategy configuration for one side.
#[derive(Clone, Copy, PartialEq, Eq, Structural, Debug)]
pub struct BotParams {
    /// Risk budget: largest allowed ratio of position notional to balance.
    pub wallet_exposure_limit: i128,
    /// Fraction of the risk budget used for the first entry.
    pub entry_initial_qty_pct: i128,
    /// Distance from the indicator band edge for the first entry's price.
    pub entry_initial_ema_dist: i128,
    /// Quantity multiplier for each grid re-entry.
    pub entry_grid_double_down_factor: i128,
    /// Base price spacing between grid re-entries.
    pub entry_grid_spacing_pct: i128,
    /// Exposure weighting of the grid spacing.
    pub entry_grid_spacing_weight: i128,
    /// Blend between trailing-first and grid-first entries, in `[-1, 1]`.
    pub entry_trailing_grid_ratio: i128,
    /// Retrace required to arm a trailing entry.
    pub entry_trailing_threshold_pct: i128,
    /// Rebound off the extremum required to trigger a trailing entry.
    pub entry_trailing_drawdown_pct: i128,
    /// Rally required to arm a trailing close.
    pub close_trailing_threshold_pct: i128,
    /// Pullback off the extremum required to trigger a trailing close.
    pub close_trailing_drawdown_pct: i128,
}

/// Current position: signed size (positive = long, negative = short, zero =
/// flat) and volume-weighted average entry price.
#[derive(Clone, Copy, PartialEq, Eq, Structural, Debug)]
pub struct Position {
    pub size: i128,
    pub price: i128,
}

/// Classification tag of an order. It carries no behaviour; callers use it to
/// tell the `Empty` sentinel and the armed-but-untriggered trailing state
/// apart, and to label fills.
#[derive(Clone, Copy, PartialEq, Eq, Structural, Debug)]
pub enum OrderType {
    Empty,
    EntryInitialNormalLong,
    EntryInitialPartialLong,
    EntryInitialNormalShort,
    EntryInitialPartialShort,
    EntryGridNormalLong,
    EntryGridCroppedLong,
    EntryGridInflatedLong,
    EntryTrailingNormalLong,
    EntryTrailingCroppedLong,
    EntryTrailingNormalShort,
    EntryTrailingCroppedShort,
    CloseTrailingLong,
}

/// The single next order to place: signed quantity, price and tag.
/// `Order { qty: 0, price: 0, order_type: OrderType::Empty }` is the unique
/// "no action" sentinel; a trailing tag with `qty == 0` means armed but not
/// yet triggered.
#[derive(Clone, Copy, PartialEq, Eq, Structural, Debug)]
pub struct Order {
    pub qty: i128,
    pub price: i128,
    pub order_type: OrderType,
}

impl Default for Order {
    /// The "no action" sentinel.
    fn default() -> (o: Order)
        ensures
            o == (Order { qty: 0, price: 0, order_type: OrderType::Empty }),
    {
        Order { qty: 0, price: 0, order_type: OrderType::Empty }
    }
}

/// Mathematical value of an order: what the model functions compute and the
/// executable functions are proved to return.
pub ghost struct OrderModel {
    pub qty: int,
    pub price: int,
    pub order_type: OrderType,
}

/// The model of the "no action" sentinel.
pub open spec fn empty_model() -> OrderModel {
    OrderModel { qty: 0, price: 0, order_type: OrderType::Empty }
}

/// An executable order realizes a model order.
pub open spec fn order_matches(o: Order, m: OrderModel) -> bool {
    o.qty == m.qty && o.price == m.price && o.order_type == m.order_type
}

/// Well-formed exchange rules: positive increments within the rounding range,
/// non-negative minimums and multiplier.
pub open spec fn exchange_valid(ex: ExchangeParams) -> bool {
    &&& 0 < ex.price_step <= MAX_STEP
    &&& 0 < ex.qty_step <= MAX_STEP
    &&& 0 <= ex.min_qty <= CAP
    &&& 0 <= ex.min_cost <= CAP
    &&& 0 <= ex.c_mult <= CAP
}

/// Well-formed snapshot: all magnitudes within the arithmetic range,
/// non-negative book and band prices.
pub open spec fn state_valid(st: StateParams) -> bool {
    &&& -CAP <= st.balance <= CAP
    &&& 0 <= st.order_book.bid <= CAP
    &&& 0 <= st.order_book.ask <= CAP
    &&& 0 <= st.ema_bands.lower <= CAP
    &&& 0 <= st.ema_bands.upper <= CAP
}

/// Well-formed strategy parameters: percentages and factors non-negative and
/// within the arithmetic range; the band distance and the blend ratio may be
/// negative.
pub open spec fn bot_valid(bot: BotParams) -> bool {
    &&& 0 <= bot.wallet_exposure_limit <= CAP
    &&& 0 <= bot.entry_initial_qty_pct <= CAP
    &&& -CAP <= bot.entry_initial_ema_dist <= CAP
    &&& 0 <= bot.entry_grid_double_down_factor <= CAP
    &&& 0 <= bot.entry_grid_spacing_pct <= CAP
    &&& 0 <= bot.entry_grid_spacing_weight <= CAP
    &&& -CAP <= bot.entry_trailing_grid_ratio <= CAP
    &&& 0 <= bot.entry_trailing_threshold_pct <= CAP
    &&& 0 <= bot.entry_trailing_drawdown_pct <= CAP
    &&& 0 <= bot.close_trailing_threshold_pct <= CAP
    &&& 0 <= bot.close_trailing_drawdown_pct <= CAP
}

/// Well-formed position: signed size and non-negative price, both within the
/// arithmetic range.
pub open spec fn position_valid(pos: Position) -> bool {
    &&& -CAP <= pos.size <= CAP
    &&& 0 <= pos.price <= CAP
}

} // verus!
