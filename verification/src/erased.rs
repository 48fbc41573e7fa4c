//! One value with its type forgotten.

use crate::identity::TypeKey;
use core::any::{Any, TypeId};
use vstd::prelude::*;

verus! {

/// A value of some `'static` type, owned and with its type forgotten: std's
/// `Box<dyn Any>`. The value is destroyed when this is dropped.
#[verifier::external_body]
pub struct Erased {
    inner: Box<dyn Any>,
}

/// The identity of the type of the value inside `e`: what std's
/// `<dyn Any>::type_id` answers for it.
pub uninterp spec fn erased_identity(e: Erased) -> TypeId;

/// Moves `value` into a box and forgets its type (std's `Box::new`).
///
/// The contract claims that the identity of what is inside is the one that
/// `key` carries. What is inside is a `T`, and a key of `T` carries the
/// identity of `T`: `TypeKey::new` is the one place where a key is made, and
/// a key is invariant in its type, so `key` is a key of exactly this `T`.
#[verifier::external_body]
#[allow(unused_variables)]
pub(crate) fn erase<T: 'static>(key: &TypeKey<T>, value: T) -> (erased: Erased)
    ensures
        erased_identity(erased) == key.id(),
{
    Erased { inner: Box::new(value) }
}

/// The value inside `erased` as a `T`, if it is one (std's
/// `<dyn Any>::downcast_ref`).
///
/// std gives the value back exactly when its type is `T`. The contract says
/// so over identities: a value comes back exactly when the identity of what
/// is inside is the one that `key` carries. That is the identity of `T`,
/// because a key is made by `TypeKey::new` alone and is invariant in its
/// type, so `key` is a key of exactly this `T`.
#[verifier::external_body]
#[allow(unused_variables)]
pub(crate) fn downcast<'a, T: 'static>(key: &TypeKey<T>, erased: &'a Erased) -> (value: Option<
    &'a T,
>)
    ensures
        value is Some <==> erased_identity(*erased) == key.id(),
{
    erased.inner.downcast_ref::<T>()
}

} // verus!
