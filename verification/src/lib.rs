//! Value-pattern dispatch over closed variant sets.
//!
//! The library models first-match dispatch as it appears in four guises:
//! classifying a dice roll against literal cases with a capturing or
//! discarding fallback, mapping a closed coin enumeration to cent values,
//! extracting the payload of a payload-bearing variant, and transforming an
//! optional value. A small dispatch-table type makes the shared mechanism
//! explicit: ordered (pattern, value) entries, first structural match wins,
//! and a table over the closed coin enumeration can only be constructed when
//! its entries cover every variant.

pub mod coins;
pub mod dispatch;
pub mod game;
pub mod optional;
