use anchor_escrow::authority::{bytes_eq, derivation_domain_bytes, derive_authority, protocol_tag_bytes};

#[test]
fn derivation_is_deterministic() {
    let a = derive_authority(7, 1).expect("derivation should find a bump byte");
    let b = derive_authority(7, 1).expect("derivation should find a bump byte");
    assert_eq!(a.address, b.address);
    assert_eq!(a.bump, b.bump);
}

#[test]
fn derived_address_is_a_fresh_32_byte_value() {
    let a = derive_authority(7, 1).expect("derivation should find a bump byte");
    assert_eq!(a.address.len(), 32);
    // The address is computed, not any of the seed material handed in.
    assert_ne!(a.address, protocol_tag_bytes());
    assert_ne!(a.address, derivation_domain_bytes());
    assert_ne!(a.address, vec![0u8; 32]);
}

#[test]
fn different_seed_tuples_give_different_authorities() {
    let a = derive_authority(7, 1).expect("derivation should find a bump byte");
    let b = derive_authority(7, 2).expect("derivation should find a bump byte");
    let c = derive_authority(8, 1).expect("derivation should find a bump byte");
    assert_ne!(a.address, b.address);
    assert_ne!(a.address, c.address);
}

#[test]
fn bytes_eq_compares_contents() {
    assert!(bytes_eq(&vec![1, 2, 3], &vec![1, 2, 3]));
    assert!(!bytes_eq(&vec![1, 2, 3], &vec![1, 2, 4]));
    assert!(!bytes_eq(&vec![1, 2, 3], &vec![1, 2]));
    assert!(bytes_eq(&Vec::new(), &Vec::new()));
}
