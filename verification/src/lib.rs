//! Closed-form Black-Scholes option pricing over exact decimal scalars:
//! prices, first- and second-order sensitivities, and a bounded
//! Newton-Raphson implied-volatility solver for European puts and calls.

pub mod engine;
pub mod num;

pub use num::Dec;
