//! Ohm's-law quantity resolution.
//!
//! Given a requested electrical quantity (power, voltage, current or
//! resistance) and two known quantities of distinct kind, the library
//! validates the three kind tags and selects the arithmetic formula that
//! derives the requested quantity from the two known values, in the order
//! the caller supplied them. Evaluating the selected formula over
//! floating-point values is left to the caller.

pub mod kind;
pub mod laws;
pub mod operation;
pub mod text;

pub use kind::{parse_kind, QuantityKind};
pub use operation::{Formula, OhmError, Operation, OperationResult, Unknowns};
