//! Heterogeneous values seen through shared capabilities, and a closed
//! discovery mechanism that recovers the concrete variant behind an abstract
//! reference.
//!
//! Every operation that would write a line of text returns that line instead,
//! so what a caller prints is stated exactly in the contracts.
pub mod dispatch;
pub mod kinds;
