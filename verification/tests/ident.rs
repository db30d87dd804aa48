//! Account identifiers.

use account_store::ident::UserId;

#[test]
fn identifier_keeps_its_bits() {
    let id = UserId::new(0xa1a2a3a4_b1b2_c1c2_d1d2_d3d4d5d6d7d8);
    assert_eq!(id.as_u128(), 0xa1a2a3a4_b1b2_c1c2_d1d2_d3d4d5d6d7d8);
    assert_eq!(id, UserId { value: 0xa1a2a3a4_b1b2_c1c2_d1d2_d3d4d5d6d7d8 });
}

#[test]
fn generated_identifiers_are_random_uuids() {
    let a = UserId::generate();
    let b = UserId::generate();
    assert!(a.is_random());
    assert!(b.is_random());
    assert_ne!(a, b);
    assert_eq!((a.value >> 76) & 0xf, 4);
    assert_eq!((a.value >> 62) & 0x3, 2);
}

#[test]
fn shape_of_a_random_uuid_is_told_from_version_and_variant() {
    assert!(UserId::new(0x00000000_0000_4000_8000_000000000000).is_random());
    assert!(UserId::new(0xffffffff_ffff_4fff_bfff_ffffffffffff).is_random());
    assert!(!UserId::new(0).is_random());
    assert!(!UserId::new(0x00000000_0000_1000_8000_000000000000).is_random());
    assert!(!UserId::new(0x00000000_0000_4000_c000_000000000000).is_random());
    assert!(!UserId::new(0x00000000_0000_4000_0000_000000000000).is_random());
    assert!(!UserId::new(0xa1a2a3a4_b1b2_c1c2_d1d2_d3d4d5d6d7d8).is_random());
}

#[test]
fn generated_identifier_round_trips_through_a_uuid() {
    let id = UserId::generate();
    let uuid = uuid::Uuid::from_u128(id.as_u128());
    assert_eq!(uuid.get_version_num(), 4);
    assert_eq!(uuid.as_u128(), id.value);
}
