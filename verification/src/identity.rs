//! Type identities and type descriptors.
//!
//! A type is known to a container by its [`TypeId`]. Which identity std gives
//! to a type cannot be said in a contract, so the functions that decide on an
//! identity take it as a value: a [`TypeKey<T>`] carries the identity of `T`
//! together with `T` itself, and a [`TypeDescriptor`] carries an identity
//! together with a size and an alignment.

use core::any::TypeId;
use core::marker::PhantomData;
use vstd::layout::{align_of, size_of};
use vstd::prelude::*;

verus! {

/// std's `TypeId`, taken as an opaque value that can be copied and compared.
#[verifier::external_type_specification]
#[verifier::external_body]
pub struct ExTypeId(TypeId);

/// std's `TypeId::of`. Nothing is claimed about the identity it returns.
pub assume_specification<T: ?Sized + 'static>[ TypeId::of::<T> ]() -> (id: TypeId);

/// `==` on std's `TypeId`: it answers `true` exactly when both sides are the
/// same identity.
pub assume_specification[ <TypeId as PartialEq>::eq ](a: &TypeId, b: &TypeId) -> (same: bool)
    ensures
        same == (*a == *b),
;

/// The identity of the type `T`, held together with `T` so that the two
/// cannot be paired wrongly.
///
/// A key of `T` always carries the identity of `T`, for three reasons: the
/// fields are private; [`TypeKey::new`] is the only place where a key is
/// made; and the marker makes the key invariant in `T`, so that a key of one
/// type is never taken for the key of another type that Rust would otherwise
/// let stand in for it. What is claimed of storing a value and of looking at
/// it again rests on that.
pub struct TypeKey<T: 'static> {
    id: TypeId,
    marker: PhantomData<&'static mut T>,
}

impl<T: 'static> TypeKey<T> {
    /// The identity that this key carries.
    pub closed spec fn id(&self) -> TypeId {
        self.id
    }

    /// The key of `T`.
    pub fn new() -> (key: Self) {
        TypeKey { id: TypeId::of::<T>(), marker: PhantomData }
    }

    /// The identity that this key carries.
    pub fn type_id(&self) -> (id: TypeId)
        ensures
            id == self.id(),
    {
        self.id
    }

    /// The descriptor of `T`: this key's identity with the size and the
    /// alignment of `T`.
    pub fn descriptor(&self) -> (d: TypeDescriptor)
        ensures
            d.id == self.id(),
            d.size as nat == size_of::<T>(),
            d.align as nat == align_of::<T>(),
    {
        TypeDescriptor {
            id: self.id,
            size: core::mem::size_of::<T>(),
            align: core::mem::align_of::<T>(),
        }
    }
}

/// What a container needs to know of one candidate type: its identity, its
/// size and its alignment, both in bytes.
#[derive(Debug, Clone, Copy)]
pub struct TypeDescriptor {
    pub id: TypeId,
    pub size: usize,
    pub align: usize,
}

impl TypeDescriptor {
    /// The descriptor of `T`.
    pub fn of<T: 'static>() -> (d: TypeDescriptor)
        ensures
            d.size as nat == size_of::<T>(),
            d.align as nat == align_of::<T>(),
    {
        TypeKey::<T>::new().descriptor()
    }

    /// Whether both descriptors denote the same type.
    pub fn same_type(&self, other: &TypeDescriptor) -> (same: bool)
        ensures
            same == (self.id == other.id),
    {
        self.id == other.id
    }
}

} // verus!
