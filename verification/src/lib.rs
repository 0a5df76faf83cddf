//! The decision core of a calculator service.
//!
//! A request names one of six binary operations and carries two IEEE-754
//! binary64 operands. This crate decides, for every request, whether it is
//! refused with an invalid-argument error or admitted for evaluation, and
//! proves that decision against a mathematical model of the operands. The
//! arithmetic on an admitted request is left to the caller's floating-point
//! hardware; the operands travel through this crate as bit patterns.

pub mod double;
pub mod message;
pub mod server;

pub use double::{Double, DoubleValue};
pub use message::{CalcError, Evaluation, Operation, TwoNumbers, DIVISION_BY_ZERO};
pub use server::DivisionServer;
