use quickvariant::builder::{contains_id, is_power_of_two, is_valid_layout};
use quickvariant::{build, BuildError, TypeDescriptor, TypeKey};
use std::alloc::Layout;
use std::any::TypeId;

fn described(id: TypeId, size: usize, align: usize) -> TypeDescriptor {
    TypeDescriptor { id, size, align }
}

#[test]
fn build_refuses_an_empty_list() {
    let none: [TypeDescriptor; 0] = [];
    assert_eq!(build(&none).err(), Some(BuildError::EmptyInput));
}

#[test]
fn build_takes_the_largest_size_and_the_largest_alignment() {
    let types = [
        described(TypeId::of::<u8>(), 1, 1),
        described(TypeId::of::<[u8; 12]>(), 12, 1),
        described(TypeId::of::<u64>(), 8, 8),
        described(TypeId::of::<u16>(), 2, 2),
    ];
    let blueprint = build(&types).unwrap();
    assert_eq!(blueprint.max_size, 12);
    assert_eq!(blueprint.max_align, 8);
    for t in types.iter() {
        assert!(blueprint.max_size >= t.size);
        assert!(blueprint.max_align >= t.align);
    }
}

#[test]
fn build_of_one_type_takes_its_size_and_alignment() {
    let blueprint = build(&[described(TypeId::of::<u32>(), 4, 4)]).unwrap();
    assert_eq!(blueprint.max_size, 4);
    assert_eq!(blueprint.max_align, 4);
    assert_eq!(blueprint.allowed, vec![TypeId::of::<u32>()]);
}

#[test]
fn build_of_zero_sized_types_gives_size_zero() {
    let blueprint = build(&[TypeDescriptor::of::<()>(), TypeDescriptor::of::<[u64; 0]>()]).unwrap();
    assert_eq!(blueprint.max_size, 0);
    assert_eq!(blueprint.max_align, 8);
    assert_eq!(blueprint.allowed.len(), 2);
}

#[test]
fn build_keeps_each_identity_once() {
    let types = [
        TypeDescriptor::of::<u8>(),
        TypeDescriptor::of::<u32>(),
        TypeDescriptor::of::<u8>(),
        TypeDescriptor::of::<u32>(),
        TypeDescriptor::of::<u8>(),
    ];
    let blueprint = build(&types).unwrap();
    assert_eq!(blueprint.allowed.len(), 2);
    assert!(blueprint.allowed.contains(&TypeId::of::<u8>()));
    assert!(blueprint.allowed.contains(&TypeId::of::<u32>()));
    assert!(!blueprint.allowed.contains(&TypeId::of::<u16>()));
    assert_eq!(blueprint.max_size, 4);
    assert_eq!(blueprint.max_align, 4);
}

#[test]
fn build_gives_the_same_answer_for_a_repeated_list() {
    let once = build(&[TypeDescriptor::of::<u8>(), TypeDescriptor::of::<String>()]).unwrap();
    let twice = build(&[
        TypeDescriptor::of::<u8>(),
        TypeDescriptor::of::<String>(),
        TypeDescriptor::of::<u8>(),
        TypeDescriptor::of::<String>(),
    ])
    .unwrap();
    assert_eq!(once.max_size, twice.max_size);
    assert_eq!(once.max_align, twice.max_align);
    assert_eq!(once.allowed, twice.allowed);
}

#[test]
fn descriptor_of_reports_identity_size_and_alignment() {
    let d = TypeDescriptor::of::<u64>();
    assert_eq!(d.id, TypeId::of::<u64>());
    assert_eq!(d.size, 8);
    assert_eq!(d.align, std::mem::align_of::<u64>());
    let s = TypeDescriptor::of::<String>();
    assert_eq!(s.id, TypeId::of::<String>());
    assert_eq!(s.size, std::mem::size_of::<String>());
    assert_eq!(s.align, std::mem::align_of::<String>());
    let unit = TypeDescriptor::of::<()>();
    assert_eq!(unit.size, 0);
    assert_eq!(unit.align, 1);
}

#[test]
fn descriptors_are_the_same_type_when_their_identities_are() {
    let a = TypeDescriptor::of::<u32>();
    let b = described(TypeId::of::<u32>(), 400, 64);
    let c = TypeDescriptor::of::<i32>();
    assert!(a.same_type(&a));
    assert!(a.same_type(&b));
    assert!(b.same_type(&a));
    assert!(!a.same_type(&c));
    assert!(!c.same_type(&b));
}

#[test]
fn key_carries_the_identity_of_its_type() {
    let key = TypeKey::<Vec<u8>>::new();
    assert_eq!(key.type_id(), TypeId::of::<Vec<u8>>());
    assert_ne!(key.type_id(), TypeId::of::<Vec<u16>>());
    let d = key.descriptor();
    assert_eq!(d.id, TypeId::of::<Vec<u8>>());
    assert_eq!(d.size, std::mem::size_of::<Vec<u8>>());
    assert_eq!(d.align, std::mem::align_of::<Vec<u8>>());
}

#[test]
fn contains_id_finds_what_is_listed() {
    let ids = vec![TypeId::of::<u8>(), TypeId::of::<u16>(), TypeId::of::<u32>()];
    assert!(contains_id(&ids, &TypeId::of::<u8>()));
    assert!(contains_id(&ids, &TypeId::of::<u16>()));
    assert!(contains_id(&ids, &TypeId::of::<u32>()));
    assert!(!contains_id(&ids, &TypeId::of::<u64>()));
    assert!(!contains_id(&Vec::new(), &TypeId::of::<u8>()));
}

#[test]
fn powers_of_two_are_told_apart() {
    assert!(!is_power_of_two(0));
    assert!(is_power_of_two(1));
    assert!(is_power_of_two(2));
    assert!(!is_power_of_two(3));
    assert!(is_power_of_two(4));
    assert!(!is_power_of_two(6));
    assert!(!is_power_of_two(12));
    assert!(is_power_of_two(4096));
    assert!(!is_power_of_two(4097));
    assert!(is_power_of_two(1usize << (usize::BITS - 1)));
    assert!(!is_power_of_two(usize::MAX));
    for n in 0..5000usize {
        assert_eq!(is_power_of_two(n), n.is_power_of_two());
    }
}

#[test]
fn layouts_are_valid_exactly_when_the_allocator_takes_them() {
    let top = isize::MAX as usize;
    assert!(is_valid_layout(0, 1));
    assert!(is_valid_layout(8, 8));
    assert!(is_valid_layout(24, 8));
    assert!(is_valid_layout(1, 4096));
    assert!(!is_valid_layout(8, 0));
    assert!(!is_valid_layout(8, 3));
    assert!(!is_valid_layout(8, 24));
    assert!(is_valid_layout(top, 1));
    assert!(!is_valid_layout(top + 1, 1));
    assert!(!is_valid_layout(top, 2));
    assert!(is_valid_layout(top - 1, 2));
    assert!(is_valid_layout(top - 7, 8));
    assert!(!is_valid_layout(top - 6, 8));
    assert!(!is_valid_layout(usize::MAX, 1));
    assert!(is_valid_layout(0, 1usize << (usize::BITS - 1)));
    assert!(!is_valid_layout(1, 1usize << (usize::BITS - 1)));
    let sizes = [0, 1, 7, 8, 9, 4096, top - 4096, top - 8, top - 7, top - 1, top, top + 1, usize::MAX];
    let aligns = [0, 1, 2, 3, 4, 5, 8, 16, 24, 4096, 1usize << (usize::BITS - 2), 1usize << (usize::BITS - 1), usize::MAX];
    for size in sizes.iter() {
        for align in aligns.iter() {
            assert_eq!(
                is_valid_layout(*size, *align),
                Layout::from_size_align(*size, *align).is_ok()
            );
        }
    }
}
