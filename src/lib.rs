//! Type-level const/mutable permission tracking for addresses, and the naming
//! rules of the variant-inspection generator.

pub mod comu;
mod seal;
pub mod enums;
pub mod conv;
pub mod pretty;
