//! A growable-array growth model with throttled migration.
//!
//! The library models the amortized-resizing strategy of a growable array:
//! admissions fill the current capacity, an expansion enlarges capacity by a
//! rational growth factor (clamped to an optional hard limit), and the data
//! that predates an expansion is migrated one unit per tick instead of all at
//! once. `model` holds the state machine itself; `driver` holds the per-tick
//! policy that sequences its operations.

pub mod driver;
pub mod model;
