//! Scenario and edge-case tests: exact ids, owners, error variants,
//! combiner arithmetic, event order, and allocator exhaustion.

use kitties::{combine_dna, EnsureDumbo, Error, Event, Kitty, RawOrigin, Registry};

const DNA: [u8; 16] = [7u8; 16];

#[test]
fn combine_dna_matches_example() {
    assert_eq!(combine_dna(0b1100_0000, 0b0000_0011, 0b1111_0000), 0b1100_0011);
}

#[test]
fn combine_dna_is_deterministic() {
    for s in [0u8, 1, 0x0f, 0xf0, 0xff] {
        assert_eq!(combine_dna(0xaa, 0x55, s), combine_dna(0xaa, 0x55, s));
    }
    assert_eq!(combine_dna(0xaa, 0x55, 0xff), 0xaa);
    assert_eq!(combine_dna(0xaa, 0x55, 0x00), 0x55);
}

#[test]
fn create_assigns_id_zero_and_owner() {
    let mut registry = Registry::new();
    assert_eq!(registry.create(1, DNA), Ok(0));
    assert_eq!(registry.kitties(0), Some(Kitty(DNA)));
    assert_eq!(registry.kitty_owner(0), Some(1));
    assert_eq!(registry.kitties_count(), 1);
}

#[test]
fn created_ids_are_strictly_increasing() {
    let mut registry = Registry::new();
    assert_eq!(registry.create(1, DNA), Ok(0));
    assert_eq!(registry.create(2, DNA), Ok(1));
    assert_eq!(registry.create(1, DNA), Ok(2));
    assert_eq!(registry.breed(1, 0, 1, DNA), Ok(3));
    assert_eq!(registry.kitties_count(), 4);
}

#[test]
fn transfer_updates_owner() {
    let mut registry = Registry::new();
    assert_eq!(registry.create(1, DNA), Ok(0));
    assert_eq!(registry.transfer(1, 2, 0), Ok(()));
    assert_eq!(registry.kitty_owner(0), Some(2));
    assert_eq!(registry.kitties(0), Some(Kitty(DNA)));
}

#[test]
fn transfer_failures_leave_state_unchanged() {
    let mut registry = Registry::new();
    assert_eq!(registry.transfer(1, 2, 99), Err(Error::KittyNotExists));
    assert_eq!(registry.kitties_count(), 0);

    assert_eq!(registry.create(1, DNA), Ok(0));
    assert_eq!(registry.transfer(2, 3, 0), Err(Error::NotKittyOwner));
    assert_eq!(registry.kitty_owner(0), Some(1));

    assert_eq!(registry.transfer(1, 1, 0), Err(Error::TransferToSelf));
    assert_eq!(registry.kitty_owner(0), Some(1));
    assert_eq!(registry.events().len(), 1);
}

#[test]
fn breed_combines_codes_bytewise() {
    let code_a: [u8; 16] = [0b1100_0000; 16];
    let code_b: [u8; 16] = [0b0000_0011; 16];
    let selector: [u8; 16] = [0b1111_0000; 16];

    let mut registry = Registry::new();
    assert_eq!(registry.create(1, code_a), Ok(0));
    assert_eq!(registry.create(2, code_b), Ok(1));
    assert_eq!(registry.breed(1, 0, 1, selector), Ok(2));

    let child = registry.kitties(2).unwrap();
    for i in 0..16 {
        assert_eq!(child.0[i], combine_dna(code_a[i], code_b[i], selector[i]));
        assert_eq!(child.0[i], 0b1100_0011);
    }
    assert_eq!(registry.kitty_owner(2), Some(1));

    assert_eq!(registry.breed(1, 0, 0, selector), Err(Error::RequiredDiffrentParent));
    assert_eq!(registry.kitties_count(), 3);
}

#[test]
fn breed_reports_first_missing_parent() {
    let mut registry = Registry::new();
    assert_eq!(registry.breed(1, 0, 1, DNA), Err(Error::InvalidKittyId));

    assert_eq!(registry.create(1, DNA), Ok(0));
    assert_eq!(registry.breed(1, 0, 7, DNA), Err(Error::InvalidKittyId));
    assert_eq!(registry.breed(1, 7, 0, DNA), Err(Error::InvalidKittyId));
    assert_eq!(registry.kitties_count(), 1);
}

#[test]
fn create_fails_when_counter_exhausted() {
    let mut registry = Registry::with_kitties_count(u32::MAX);
    assert_eq!(registry.create(1, DNA), Err(Error::KittiesCountOverflow));
    assert_eq!(registry.kitties_count(), u32::MAX);
    assert_eq!(registry.kitties(0), None);
    assert_eq!(registry.events().len(), 0);
}

#[test]
fn breed_fails_when_counter_exhausted() {
    let mut registry = Registry::with_kitties_count(u32::MAX - 2);
    assert_eq!(registry.create(1, DNA), Ok(u32::MAX - 2));
    assert_eq!(registry.create(1, DNA), Ok(u32::MAX - 1));
    assert_eq!(
        registry.breed(1, u32::MAX - 2, u32::MAX - 1, DNA),
        Err(Error::KittiesCountOverflow)
    );
    assert_eq!(registry.kitties_count(), u32::MAX);
}

#[test]
fn next_kitty_id_reports_counter() {
    let registry = Registry::new();
    assert_eq!(registry.next_kitty_id(), Ok(0));
    let full = Registry::with_kitties_count(u32::MAX);
    assert_eq!(full.next_kitty_id(), Err(Error::KittiesCountOverflow));
}

#[test]
fn insert_kitty_records_asset_and_owner() {
    let mut registry = Registry::new();
    registry.insert_kitty(5, 0, Kitty(DNA));
    assert_eq!(registry.kitties(0), Some(Kitty(DNA)));
    assert_eq!(registry.kitty_owner(0), Some(5));
    assert_eq!(registry.kitties_count(), 1);
    assert_eq!(registry.events().len(), 0);
}

#[test]
fn events_are_emitted_in_order() {
    let mut registry = Registry::new();
    assert_eq!(registry.create(1, DNA), Ok(0));
    assert_eq!(registry.transfer(1, 2, 0), Ok(()));
    assert_eq!(
        registry.events().as_slice(),
        &[Event::Created(1, 0), Event::Transferred(1, 2, 0)]
    );
}

#[test]
fn ensure_dumbo_admits_dumbo_origin() {
    assert_eq!(EnsureDumbo::try_origin(RawOrigin::Dumbo), Ok(()));
}
