//! The registry's operation tests: creating, transferring and breeding
//! assets through the public engine interface.

use kitties::{Error, Event, Registry};

const DNA: [u8; 16] = [0u8; 16];

#[test]
fn create_kitty_works() {
    let mut registry = Registry::new();
    assert!(registry.create(1, DNA).is_ok());
    assert_eq!(registry.events()[0], Event::Created(1, 0));
}

#[test]
fn transfer_kitty_works() {
    let mut registry = Registry::new();
    let _ = registry.create(1, DNA);
    assert!(registry.transfer(1, 2, 0).is_ok());
}

#[test]
fn transfer_kitty_failed_when_not_exists() {
    let mut registry = Registry::new();
    assert_eq!(registry.transfer(1, 1, 0), Err(Error::KittyNotExists));
}

#[test]
fn transfer_kitty_failed_when_not_owner() {
    let mut registry = Registry::new();
    let _ = registry.create(1, DNA);
    assert_eq!(registry.transfer(2, 1, 0), Err(Error::NotKittyOwner));
}

#[test]
fn transfer_kitty_failed_when_to_self() {
    let mut registry = Registry::new();
    let _ = registry.create(1, DNA);
    assert_eq!(registry.transfer(1, 1, 0), Err(Error::TransferToSelf));
}

#[test]
fn breed_kitty_works() {
    let mut registry = Registry::new();
    let _ = registry.create(1, DNA);
    let _ = registry.create(2, DNA);
    assert!(registry.breed(1, 0, 1, DNA).is_ok());
}
