//! A single-slot container for one value out of a fixed list of permitted
//! types.
//!
//! The list of permitted types is settled once, when the container is
//! configured: [`build`] turns a list of type descriptors into the largest
//! size, the largest alignment and the set of permitted identities, and
//! [`Variant::new`] makes an empty container from those. Afterwards the
//! container holds at most one value at a time, remembers which permitted
//! type it is, and hands it back only under that type.

pub mod builder;
mod erased;
pub mod error;
pub mod identity;
pub mod make;
pub mod variant;

pub use builder::{build, Blueprint};
pub use error::{BuildError, ErrorKind, MakeError};
pub use identity::{TypeDescriptor, TypeKey};
pub use make::make_variant;
pub use variant::{Variant, VariantState};
