//! The failures that configuring or using a container can report.

use vstd::prelude::*;

verus! {

/// Why a container could not be made, or a value could not be stored.
#[derive(Debug, Clone, Copy, PartialEq, Eq, Structural)]
pub enum ErrorKind {
    /// The size and alignment asked for do not form a valid memory layout.
    InvalidParameters,
    /// Memory for the container could not be obtained.
    AllocationFailed,
    /// The type of the value is not one the container was configured for.
    DisallowedType,
}

/// Why a list of type descriptors could not be turned into a blueprint.
#[derive(Debug, Clone, Copy, PartialEq, Eq, Structural)]
pub enum BuildError {
    /// The list of types was empty.
    EmptyInput,
}

/// Why a list of type descriptors could not be turned into a container.
#[derive(Debug, Clone, Copy, PartialEq, Eq, Structural)]
pub enum MakeError {
    /// The list of types was refused before any container was attempted.
    Build(BuildError),
    /// The list was accepted, but the container could not be constructed.
    Construct(ErrorKind),
}

} // verus!
