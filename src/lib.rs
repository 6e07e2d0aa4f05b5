//! A pre-trade risk gate: market-condition and order-validity checks over
//! exact fixed-point quantities.
pub mod fixed;
pub mod gate;
pub mod order;
