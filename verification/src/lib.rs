//! Overflow-safe fixed-point arithmetic on 256-bit unsigned integers, a
//! loss-versus-rebalancing accumulator built on it, and a swap-curve
//! component with pluggable pricing.

pub mod uint;
pub mod math;
pub mod currency;
pub mod analytics;
pub mod curve;
