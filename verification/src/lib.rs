//! Next-order computation for one side of a perpetual-futures position under a
//! grid/trailing strategy.
//!
//! Given the exchange's quantization rules, a balance/order-book/indicator
//! snapshot, the strategy parameters and the current position, the library
//! returns the single next entry or close order to place: a
//! (quantity, price, tag) triple, with a zero/zero/`Empty` sentinel meaning
//! "no action" and a zero-quantity trailing tag meaning "armed but not yet
//! triggered".
//!
//! All amounts are fixed-point integers with eight decimal places (see
//! [`fixed`]), so every function is total and deterministic. Each public
//! decision function is proved equal to a mathematical model of itself, and
//! [`laws`] states the cross-cutting guarantees on those models: the sign of
//! quantities per side, price quantization, the exposure-cap boundary, the
//! cropping interpolation identity, and determinism.

pub mod fixed;
pub mod types;
pub mod utils;
pub mod entries;
pub mod trailing;
pub mod laws;
