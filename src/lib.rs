//! Precondition checking and buffer layout for a 2D coordinate-generation engine.
//!
//! A molecule is given as a slice of atomic numbers and a slice of bonds
//! `[first_atom, second_atom, multiplicity]`. The engine that lays the atoms out
//! trusts its input completely, so this library states the conditions it relies
//! on, checks them with a fixed order of precedence between the possible faults,
//! and converts between the graph and the flat buffers that the engine reads and
//! writes.
pub mod entry;
pub mod error;
pub mod flat;
pub mod graph;
pub mod validate;

pub use error::Error;
pub use validate::validate;
