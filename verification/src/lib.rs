//! Two-dimensional simplex noise: the lookup table, the lattice hash and the
//! gradient selection behind a `noise2d` evaluator, with their contracts.

pub mod gradient;
pub mod lattice;
pub mod simplex;
pub mod source;
pub mod table;

pub use gradient::Gradient;
pub use simplex::Simplex;
pub use source::ByteSource;
pub use source::EntropyUnavailable;
pub use source::XorShift;
