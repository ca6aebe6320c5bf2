//! Records of chemical molecules and their Antoine vapor-pressure
//! coefficients: the rules that resolve imported coefficient rows against
//! stored molecules, that filter stored records, and that pick the
//! coefficient sets valid at a temperature.
pub mod float;
pub mod models;
pub mod query;
pub mod reconcile;

pub use float::Float64;
pub use models::{AntoineCoeff, AntoineCoeffCSV, Molecule};
pub use query::{select, select_applicable, Filter, ReadArgsError};
pub use reconcile::{reconcile_all, resolve_molecule, ReconcileError, RowError};
