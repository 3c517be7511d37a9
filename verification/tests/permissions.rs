use sparkle_convenience::permissions::{Permissions, ALL_PERMISSION_BITS};
use twilight_model::guild::Permissions as ModelPermissions;

#[test]
fn all_holds_every_defined_permission() {
    assert_eq!(ALL_PERMISSION_BITS, 0x67ff_ffff_ffff);
    assert_eq!(Permissions::all().bits(), ALL_PERMISSION_BITS);
    assert_eq!(Permissions::all().bits(), ModelPermissions::all().bits());
}

#[test]
fn empty_holds_nothing() {
    assert_eq!(Permissions::empty().bits(), 0);
    assert!(Permissions::empty().is_empty());
    assert!(!Permissions::all().is_empty());
}

#[test]
fn from_bits_takes_defined_bits_only() {
    let send = ModelPermissions::SEND_MESSAGES.bits();
    assert_eq!(send, 1 << 11);
    assert_eq!(Permissions::from_bits(send).map(|p| p.bits()), Some(send));
    assert_eq!(Permissions::from_bits(0).map(|p| p.bits()), Some(0));
    assert_eq!(
        Permissions::from_bits(ALL_PERMISSION_BITS).map(|p| p.bits()),
        Some(ALL_PERMISSION_BITS)
    );
    assert_eq!(Permissions::from_bits(1 << 43), None);
    assert_eq!(Permissions::from_bits(1 << 44), None);
    assert_eq!(Permissions::from_bits(1 << 47), None);
    assert_eq!(Permissions::from_bits(u64::MAX), None);
    assert_eq!(Permissions::from_bits(send | (1 << 63)), None);
}

#[test]
fn from_bits_truncate_drops_undefined_bits() {
    assert_eq!(Permissions::from_bits_truncate(u64::MAX).bits(), ALL_PERMISSION_BITS);
    assert_eq!(Permissions::from_bits_truncate((1 << 43) | 0b101).bits(), 0b101);
    assert_eq!(Permissions::from_bits_truncate(0).bits(), 0);
    assert_eq!(
        Permissions::from_bits_truncate(u64::MAX).bits(),
        ModelPermissions::from_bits_truncate(u64::MAX).bits()
    );
}

#[test]
fn difference_keeps_what_the_other_lacks() {
    let required = Permissions::from_bits_truncate(0b0110);
    let granted = Permissions::from_bits_truncate(0b0011);
    assert_eq!(required.difference(granted).bits(), 0b0100);
    assert_eq!(granted.difference(required).bits(), 0b0001);
    assert_eq!(required.difference(required).bits(), 0);
    assert_eq!(required.difference(Permissions::empty()).bits(), 0b0110);
    assert_eq!(
        required.difference(granted).bits(),
        (ModelPermissions::from_bits_truncate(0b0110) - ModelPermissions::from_bits_truncate(0b0011))
            .bits()
    );
}
