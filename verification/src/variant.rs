//! The container: one slot, a fixed set of permitted types, and the type of
//! the value that the slot holds at the moment.

use crate::builder::{contains_id, is_valid_layout};
use crate::erased::{downcast, erase, erased_identity, Erased};
use crate::error::ErrorKind;
use crate::identity::TypeKey;
use core::any::TypeId;
use vstd::layout::valid_layout;
use vstd::prelude::*;

verus! {

/// What a container is, as far as its contracts are concerned.
pub struct VariantState {
    /// The size that the container was configured with.
    pub max_size: usize,
    /// The alignment that the container was configured with.
    pub max_align: usize,
    /// The identities of the permitted types.
    pub allowed: Set<TypeId>,
    /// The identity of the type of the value held, if one is held.
    pub active: Option<TypeId>,
}

impl VariantState {
    /// The size and the alignment form a valid layout, and the type of the
    /// value held is a permitted one.
    pub open spec fn wf(self) -> bool {
        &&& valid_layout(self.max_size, self.max_align)
        &&& self.active matches Some(id) ==> self.allowed.contains(id)
    }

    /// Whether `id` is the identity of a permitted type.
    pub open spec fn admits(self, id: TypeId) -> bool {
        self.allowed.contains(id)
    }

    /// Whether a value of the type with identity `id` is held.
    pub open spec fn holds(self, id: TypeId) -> bool {
        self.active == Some(id)
    }

    /// The container after an attempt to store a value of the type with
    /// identity `id`: it holds that type if it is permitted, and is unchanged
    /// if it is not.
    pub open spec fn after_set(self, id: TypeId) -> VariantState {
        if self.admits(id) {
            VariantState { active: Some(id), ..self }
        } else {
            self
        }
    }

    /// The container after it was cleared.
    pub open spec fn after_reset(self) -> VariantState {
        VariantState { active: None, ..self }
    }
}

/// Once a value of a permitted type is stored, the container holds that type
/// and no other.
pub proof fn lemma_set_then_holds(s: VariantState, id: TypeId, other: TypeId)
    requires
        s.admits(id),
    ensures
        s.after_set(id).holds(id),
        other != id ==> !s.after_set(id).holds(other),
{
}

/// An attempt to store a value of a type that is not permitted leaves the
/// container as it was, whatever it held.
pub proof fn lemma_disallowed_set_changes_nothing(s: VariantState, id: TypeId)
    requires
        !s.admits(id),
    ensures
        s.after_set(id) == s,
        forall|other: TypeId| #[trigger] s.after_set(id).holds(other) == s.holds(other),
{
}

/// A container that was cleared holds no type, and clearing it again changes
/// nothing.
pub proof fn lemma_reset_clears(s: VariantState)
    ensures
        forall|id: TypeId| !#[trigger] s.after_reset().holds(id),
        s.after_reset().after_reset() == s.after_reset(),
{
}

/// Storing and clearing keep a container well formed, and neither changes
/// what it was configured with.
pub proof fn lemma_configuration_is_kept(s: VariantState, id: TypeId)
    requires
        s.wf(),
    ensures
        s.after_set(id).wf(),
        s.after_reset().wf(),
        s.after_set(id).allowed == s.allowed,
        s.after_reset().allowed == s.allowed,
        s.after_set(id).max_size == s.max_size && s.after_set(id).max_align == s.max_align,
        s.after_reset().max_size == s.max_size && s.after_reset().max_align == s.max_align,
{
}

/// The value held, with the identity of its type. Both are stored and removed
/// together, so that one is there exactly when the other is.
struct Occupant {
    id: TypeId,
    value: Erased,
}

/// A container for at most one value, of one of a fixed set of types.
pub struct Variant {
    max_size: usize,
    max_align: usize,
    /// The permitted identities. They are kept in a list and looked up one by
    /// one: what vstd says of a `HashSet` holds only for keys whose hashing it
    /// knows, and `TypeId` is not among them.
    allowed: Vec<TypeId>,
    occupant: Option<Occupant>,
}

impl View for Variant {
    type V = VariantState;

    closed spec fn view(&self) -> VariantState {
        VariantState {
            max_size: self.max_size,
            max_align: self.max_align,
            allowed: self.allowed@.to_set(),
            active: match self.occupant {
                Some(o) => Some(o.id),
                None => None,
            },
        }
    }
}

impl Variant {
    #[verifier::type_invariant]
    closed spec fn inv(&self) -> bool {
        &&& self@.wf()
        &&& self.occupant matches Some(o) ==> erased_identity(o.value) == o.id
    }

    /// An empty container for values of the types in `allowed`, none of them
    /// larger than `max_size` bytes or more strictly aligned than `max_align`
    /// bytes.
    ///
    /// Fails with `InvalidParameters` when `max_size` and `max_align` do not
    /// form a valid layout. The value is given its own storage when it is
    /// stored, so making the container obtains no memory and never fails with
    /// `AllocationFailed`.
    pub fn new(max_size: usize, max_align: usize, allowed: Vec<TypeId>) -> (r: Result<
        Variant,
        ErrorKind,
    >)
        ensures
            valid_layout(max_size, max_align) <==> r is Ok,
            r matches Ok(v) ==> v@ == (VariantState {
                max_size,
                max_align,
                allowed: allowed@.to_set(),
                active: None,
            }) && v@.wf(),
            r matches Err(e) ==> e == ErrorKind::InvalidParameters,
    {
        if !is_valid_layout(max_size, max_align) {
            return Err(ErrorKind::InvalidParameters);
        }
        Ok(Variant { max_size, max_align, allowed, occupant: None })
    }

    /// The size that the container was configured with.
    pub fn max_size(&self) -> (size: usize)
        ensures
            size == self@.max_size,
    {
        self.max_size
    }

    /// The alignment that the container was configured with.
    pub fn max_align(&self) -> (align: usize)
        ensures
            align == self@.max_align,
    {
        self.max_align
    }

    /// The identity of the type of the value held, if one is held. It is
    /// always a permitted one.
    pub fn active(&self) -> (id: Option<TypeId>)
        ensures
            id == self@.active,
            self@.wf(),
    {
        proof {
            use_type_invariant(self);
        }
        match &self.occupant {
            Some(o) => Some(o.id),
            None => None,
        }
    }

    /// Whether `id` is the identity of a permitted type. This looks at the
    /// permitted types one by one; their number is fixed when the container
    /// is made.
    pub fn admits(&self, id: &TypeId) -> (yes: bool)
        ensures
            yes == self@.admits(*id),
    {
        contains_id(&self.allowed, id)
    }

    /// Whether the value held is of the type that `key` stands for.
    pub fn holds_keyed<T: 'static>(&self, key: &TypeKey<T>) -> (yes: bool)
        ensures
            yes == self@.holds(key.id()),
    {
        match &self.occupant {
            Some(o) => o.id == key.type_id(),
            None => false,
        }
    }

    /// Whether the value held is a `T`. An empty container holds no type.
    pub fn holds<T: 'static>(&self) -> (yes: bool)
        ensures
            yes ==> self@.active is Some,
    {
        let key = TypeKey::<T>::new();
        self.holds_keyed(&key)
    }

    /// Stores `value`, whose type `key` stands for.
    ///
    /// Where that type is not permitted, this fails with `DisallowedType` and
    /// the container is left as it was. Otherwise the value held before, if
    /// any, is destroyed first, and then `value` takes its place.
    pub fn set_keyed<T: 'static>(&mut self, key: &TypeKey<T>, value: T) -> (r: Result<
        (),
        ErrorKind,
    >)
        ensures
            old(self)@.admits(key.id()) <==> r is Ok,
            r matches Err(e) ==> e == ErrorKind::DisallowedType && *final(self) == *old(self),
            final(self)@ == old(self)@.after_set(key.id()),
            final(self)@.wf(),
    {
        proof {
            use_type_invariant(&*self);
        }
        let id = key.type_id();
        if !self.admits(&id) {
            return Err(ErrorKind::DisallowedType);
        }
        self.occupant = None;
        self.occupant = Some(Occupant { id, value: erase(key, value) });
        Ok(())
    }

    /// Stores `value`.
    ///
    /// Where `T` is not permitted, this fails with `DisallowedType` and the
    /// container is left as it was. Otherwise the value held before, if any,
    /// is destroyed first, and then `value` takes its place.
    pub fn set<T: 'static>(&mut self, value: T) -> (r: Result<(), ErrorKind>)
        ensures
            exists|id: TypeId|
                final(self)@ == #[trigger] old(self)@.after_set(id) && (old(self)@.admits(id)
                    <==> r is Ok),
            r matches Err(e) ==> e == ErrorKind::DisallowedType && *final(self) == *old(self),
            r is Ok ==> final(self)@.active is Some,
            final(self)@.wf(),
    {
        let key = TypeKey::<T>::new();
        self.set_keyed(&key, value)
    }

    /// Destroys the value held, if any, and leaves the container empty.
    pub fn reset(&mut self)
        ensures
            final(self)@ == old(self)@.after_reset(),
            final(self)@.wf(),
    {
        proof {
            use_type_invariant(&*self);
        }
        self.occupant = None;
    }

    /// The value held, if it is of the type that `key` stands for: a value
    /// comes back exactly when the container holds that type.
    pub fn get_keyed<T: 'static>(&self, key: &TypeKey<T>) -> (value: Option<&T>)
        ensures
            value is Some <==> self@.holds(key.id()),
    {
        proof {
            use_type_invariant(self);
        }
        match &self.occupant {
            Some(o) => {
                if o.id == key.type_id() {
                    downcast(key, &o.value)
                } else {
                    None
                }
            },
            None => None,
        }
    }

    /// The value held, if it is a `T`. An empty container gives nothing.
    pub fn get<T: 'static>(&self) -> (value: Option<&T>)
        ensures
            value is Some ==> self@.active is Some,
    {
        let key = TypeKey::<T>::new();
        self.get_keyed(&key)
    }
}

} // verus!
