//! What holds of the library as a whole, beyond the contract of a single function.

pub mod carrying_out;
pub mod choosing;
pub mod drawing;
pub mod reading;
pub mod runs;
pub mod showing;
pub mod views;
