//! Constraint systems for a PLONK-style proof system: field elements,
//! a constraint builder, a demonstration circuit and the decisions of the
//! compile and prove stages.

pub mod builder;
pub mod circuit;
pub mod compiler;
pub mod scalar;
pub mod checking;

pub use builder::{Builder, Constraint, Gate, Witness};
pub use circuit::{Error, TestCircuit};
pub use compiler::{check_public_inputs, compile, layout_matches, prepare_proof, Shape};
pub use scalar::Scalar;
pub use checking::{verdict, verify};
