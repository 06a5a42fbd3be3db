//! Fixed-timestep dynamics of a differential-drive robot driven by two DC
//! gear motors.
//!
//! Every physical value is a [`quantity::Quantity`]: an exact fixed-point
//! number tagged with its SI dimension. Arithmetic between quantities
//! requires, as a verified precondition, that the dimensions combine, so a
//! dimensional mistake is rejected when the crate is verified, not at run
//! time. Arithmetic that leaves the representable range reports it.
pub mod quantity;
pub mod dynamics;
