//! Wrapper types over the native macOS/iOS GUI framework's colors and
//! switches. The types here carry the full decision logic — which platform
//! accessor a symbolic color resolves to, how custom colors are normalized,
//! what a dynamic color stores for each appearance, and what state a switch's
//! backing button is in — as verified plain data. Dispatching the decisions
//! into the Objective-C runtime is left to a thin unverified shell around
//! this crate.

pub mod color;
pub mod switch;
