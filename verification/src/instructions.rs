//! The three operations on an escrow: open it, settle it, cancel it.

pub mod make;
pub mod take;
pub mod refund;

pub use make::{Make, MakeAccounts, MakeInstructionData};
pub use refund::{Refund, RefundAccounts};
pub use take::{Take, TakeAccounts};
