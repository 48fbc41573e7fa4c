//! From a list of candidate types straight to an empty container.

use crate::builder::{build, identities, largest_align, largest_size, lemma_largest_bounds};
use crate::error::{BuildError, ErrorKind, MakeError};
use crate::identity::TypeDescriptor;
use crate::variant::{Variant, VariantState};
use vstd::prelude::*;

verus! {

/// The empty container that a list of candidate types asks for.
pub open spec fn asked_for(types: Seq<TypeDescriptor>) -> VariantState {
    VariantState {
        max_size: largest_size(types),
        max_align: largest_align(types),
        allowed: identities(types),
        active: None,
    }
}

/// The container that a list asks for permits every type in the list, and
/// every type in the list fits the size and the alignment that the container
/// is configured with.
pub proof fn lemma_listed_types_are_permitted(types: Seq<TypeDescriptor>, i: int)
    requires
        0 <= i < types.len(),
    ensures
        asked_for(types).admits(types[i].id),
        types[i].size <= asked_for(types).max_size,
        types[i].align <= asked_for(types).max_align,
{
    lemma_largest_bounds(types, i);
}

/// An empty container for values of the types that `types` describes.
///
/// An empty list is refused with `EmptyInput` before any container is
/// attempted. Otherwise the container is configured with the largest size and
/// the largest alignment in the list and permits exactly the types in the
/// list; it is refused with `InvalidParameters` where those two do not form a
/// valid layout.
pub fn make_variant(types: &[TypeDescriptor]) -> (r: Result<Variant, MakeError>)
    ensures
        types@.len() == 0 ==> (r matches Err(e) && e == MakeError::Build(BuildError::EmptyInput)),
        types@.len() > 0 && !asked_for(types@).wf() ==> (r matches Err(e) && e
            == MakeError::Construct(ErrorKind::InvalidParameters)),
        types@.len() > 0 && asked_for(types@).wf() ==> (r matches Ok(v) && v@ == asked_for(types@)),
{
    let blueprint = match build(types) {
        Ok(blueprint) => blueprint,
        Err(e) => {
            return Err(MakeError::Build(e));
        },
    };
    match Variant::new(blueprint.max_size, blueprint.max_align, blueprint.allowed) {
        Ok(v) => Ok(v),
        Err(e) => Err(MakeError::Construct(e)),
    }
}

} // verus!
