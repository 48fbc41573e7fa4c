//! From a list of candidate types to what a container is made from: the
//! largest size, the largest alignment and the set of permitted identities.

use crate::error::BuildError;
use crate::identity::TypeDescriptor;
use core::any::TypeId;
use vstd::arithmetic::power2::is_pow2;
use vstd::layout::valid_layout;
use vstd::prelude::*;

verus! {

/// The largest size among `types`, and 0 for an empty list.
pub open spec fn largest_size(types: Seq<TypeDescriptor>) -> usize
    decreases types.len(),
{
    if types.len() == 0 {
        0
    } else {
        let before = largest_size(types.drop_last());
        if types.last().size > before {
            types.last().size
        } else {
            before
        }
    }
}

/// The largest alignment among `types`, and 0 for an empty list.
pub open spec fn largest_align(types: Seq<TypeDescriptor>) -> usize
    decreases types.len(),
{
    if types.len() == 0 {
        0
    } else {
        let before = largest_align(types.drop_last());
        if types.last().align > before {
            types.last().align
        } else {
            before
        }
    }
}

/// The identities that occur in `types`.
pub open spec fn identities(types: Seq<TypeDescriptor>) -> Set<TypeId> {
    Set::new(|id: TypeId| exists|i: int| 0 <= i < types.len() && types[i].id == id)
}

/// What a container is made from.
pub struct Blueprint {
    /// The size of the largest permitted type.
    pub max_size: usize,
    /// The alignment of the most strictly aligned permitted type.
    pub max_align: usize,
    /// The permitted identities, each once.
    pub allowed: Vec<TypeId>,
}

/// Whether `n` is a power of two.
pub fn is_power_of_two(n: usize) -> (yes: bool)
    ensures
        yes == is_pow2(n as int),
{
    if n == 0 {
        proof {
            reveal(is_pow2);
        }
        return false;
    }
    let mut rest: usize = n;
    while rest % 2 == 0
        invariant
            rest > 0,
            is_pow2(rest as int) == is_pow2(n as int),
        decreases rest,
    {
        proof {
            reveal(is_pow2);
        }
        rest = rest / 2;
    }
    proof {
        reveal(is_pow2);
    }
    rest == 1
}

/// Whether a region of `size` bytes aligned to `align` bytes can be asked of
/// an allocator: `align` is a power of two, and `size` rounded up to a
/// multiple of `align` does not exceed `isize::MAX`.
pub fn is_valid_layout(size: usize, align: usize) -> (ok: bool)
    ensures
        ok == valid_layout(size, align),
{
    if !is_power_of_two(align) {
        return false;
    }
    let limit: usize = isize::MAX as usize;
    proof {
        reveal(is_pow2);
        vstd::arithmetic::div_mod::lemma_mod_decreases(limit as nat, align as nat);
    }
    size <= limit - limit % align
}

/// Whether `id` occurs in `ids`.
pub fn contains_id(ids: &Vec<TypeId>, id: &TypeId) -> (found: bool)
    ensures
        found == ids@.contains(*id),
{
    let mut i: usize = 0;
    while i < ids.len()
        invariant
            i <= ids.len(),
            forall|j: int| 0 <= j < i ==> ids@[j] != *id,
        decreases ids.len() - i,
    {
        if ids[i] == *id {
            return true;
        }
        i += 1;
    }
    false
}

/// Works out what a container for `types` is made from.
///
/// An empty list is refused. Otherwise the blueprint holds the largest size
/// and the largest alignment in the list, and every identity in the list
/// exactly once, however often the list repeats a type.
pub fn build(types: &[TypeDescriptor]) -> (r: Result<Blueprint, BuildError>)
    ensures
        types@.len() == 0 ==> r == Err::<Blueprint, BuildError>(BuildError::EmptyInput),
        types@.len() > 0 ==> r is Ok,
        r matches Ok(b) ==> {
            &&& b.max_size == largest_size(types@)
            &&& b.max_align == largest_align(types@)
            &&& forall|i: int|
                0 <= i < types@.len() ==> (#[trigger] types@[i]).size <= b.max_size
                    && types@[i].align <= b.max_align
            &&& exists|i: int| 0 <= i < types@.len() && (#[trigger] types@[i]).size == b.max_size
            &&& exists|i: int| 0 <= i < types@.len() && (#[trigger] types@[i]).align == b.max_align
            &&& b.allowed@.no_duplicates()
            &&& b.allowed@.to_set() == identities(types@)
        },
{
    if types.len() == 0 {
        return Err(BuildError::EmptyInput);
    }
    let mut max_size: usize = 0;
    let mut max_align: usize = 0;
    let mut allowed: Vec<TypeId> = Vec::new();
    let mut i: usize = 0;
    while i < types.len()
        invariant
            i <= types.len(),
            max_size == largest_size(types@.take(i as int)),
            max_align == largest_align(types@.take(i as int)),
            allowed@.no_duplicates(),
            allowed@.to_set() == identities(types@.take(i as int)),
        decreases types.len() - i,
    {
        let d = &types[i];
        proof {
            let seen = types@.take(i as int);
            let next = types@.take(i + 1);
            assert(next.drop_last() == seen);
            assert(next.last() == types@[i as int]);
            lemma_identities_push(seen, next);
        }
        if d.size > max_size {
            max_size = d.size;
        }
        if d.align > max_align {
            max_align = d.align;
        }
        if !contains_id(&allowed, &d.id) {
            proof {
                allowed@.lemma_push_to_set_commute(d.id);
            }
            allowed.push(d.id);
        } else {
            assert(allowed@.to_set().insert(d.id) == allowed@.to_set());
        }
        i += 1;
    }
    proof {
        assert(types@.take(types@.len() as int) == types@);
        lemma_largest_is_attained(types@);
        assert forall|i: int| 0 <= i < types@.len() implies (#[trigger] types@[i]).size
            <= max_size && types@[i].align <= max_align by {
            lemma_largest_bounds(types@, i);
        }
    }
    Ok(Blueprint { max_size, max_align, allowed })
}

/// No size in a list exceeds the largest size of the list, and no alignment
/// its largest alignment.
pub proof fn lemma_largest_bounds(types: Seq<TypeDescriptor>, i: int)
    requires
        0 <= i < types.len(),
    ensures
        types[i].size <= largest_size(types),
        types[i].align <= largest_align(types),
    decreases types.len(),
{
    if i < types.len() - 1 {
        lemma_largest_bounds(types.drop_last(), i);
    }
}

/// In a list that is not empty, the largest size is the size of one of its
/// entries, and the largest alignment the alignment of one of its entries.
pub proof fn lemma_largest_is_attained(types: Seq<TypeDescriptor>)
    requires
        types.len() > 0,
    ensures
        exists|i: int| 0 <= i < types.len() && (#[trigger] types[i]).size == largest_size(types),
        exists|i: int|
            0 <= i < types.len() && (#[trigger] types[i]).align == largest_align(types),
    decreases types.len(),
{
    let before = types.drop_last();
    let last = types.len() - 1;
    if before.len() > 0 {
        lemma_largest_is_attained(before);
        let s = choose|i: int|
            0 <= i < before.len() && (#[trigger] before[i]).size == largest_size(before);
        let a = choose|i: int|
            0 <= i < before.len() && (#[trigger] before[i]).align == largest_align(before);
        assert(types[s] == before[s]);
        assert(types[a] == before[a]);
        if types.last().size > largest_size(before) {
            assert(types[last].size == largest_size(types));
        } else {
            assert(types[s].size == largest_size(types));
        }
        if types.last().align > largest_align(before) {
            assert(types[last].align == largest_align(types));
        } else {
            assert(types[a].align == largest_align(types));
        }
    } else {
        assert(largest_size(before) == 0 && largest_align(before) == 0);
        assert(types[last].size == largest_size(types));
        assert(types[last].align == largest_align(types));
    }
}

/// A type that a list already names adds no identity when it is named again.
pub proof fn lemma_repeated_type_adds_nothing(types: Seq<TypeDescriptor>, again: TypeDescriptor)
    requires
        identities(types).contains(again.id),
    ensures
        identities(types.push(again)) == identities(types),
{
    let longer = types.push(again);
    assert(longer.drop_last() == types);
    lemma_identities_push(types, longer);
    assert(identities(types).insert(again.id) =~= identities(types));
}

/// The identities of a list are those of the list without its last entry,
/// and the identity of that entry.
proof fn lemma_identities_push(seen: Seq<TypeDescriptor>, next: Seq<TypeDescriptor>)
    requires
        next.len() > 0,
        next.drop_last() == seen,
    ensures
        identities(next) == identities(seen).insert(next.last().id),
{
    assert forall|id: TypeId| identities(next).contains(id) <==> identities(seen).insert(
        next.last().id,
    ).contains(id) by {
        if identities(next).contains(id) {
            let i = choose|i: int| 0 <= i < next.len() && next[i].id == id;
            if i < seen.len() {
                assert(seen[i].id == id);
            }
        }
        if identities(seen).contains(id) {
            let i = choose|i: int| 0 <= i < seen.len() && seen[i].id == id;
            assert(next[i].id == id);
        }
        if id == next.last().id {
            assert(next[next.len() - 1].id == id);
        }
    }
    assert(identities(next) =~= identities(seen).insert(next.last().id));
}

} // verus!
