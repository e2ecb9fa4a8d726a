//! A property-test input generation and shrinking core.
//!
//! A [`strategy::Strategy`] describes a distribution of values and can
//! materialize a fresh [`strategy::ValueTree`] from an entropy source; the
//! tree carries one concrete candidate value and a cursor with which a driver
//! can search for a minimal failing value through `simplify` and `complicate`.
//!
//! Strategies are held and composed by their concrete types. A type-erasing
//! boxed handle (one uniform type over several strategies, behind dynamic
//! dispatch) is deliberately not offered: the verifier reasons about
//! statically known implementations only and refuses trait objects, so a
//! caller that needs one uniform type over a fixed set of strategies wraps
//! them in an enum of its own.

pub mod array;
pub mod evm;
pub mod filter;
pub mod map;
pub mod non_zero;
pub mod num;
pub mod runner;
pub mod strategy;
