//! Core of a retail purchase service: a mutable shopping `Cart` aggregate
//! that accumulates scanned goods and physically tagged unit items, applies
//! discounts and loyalty-point burns, tracks payments, and on closing is
//! validated and converted into an immutable `Purchase` record.
//!
//! All money arithmetic is exact integer arithmetic over amounts in HUF.

pub mod cart;
pub mod clock;
pub mod errors;
pub mod ids;
pub mod purchase;
pub mod rounding;
pub mod sums;
pub mod vat;
