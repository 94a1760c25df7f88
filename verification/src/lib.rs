//! A minimal Plonkish constraint-system authoring and witness-assignment
//! layer: columns, selectors, gates and copy constraints are declared once,
//! and a synthesis engine then assigns cells region by region, for the
//! fixed example computation `x^3 + x + c` with one public output.
pub mod field;
pub mod value;
pub mod system;
pub mod layout;
pub mod chip;
pub mod circuit;
pub mod checker;
pub mod laws;
