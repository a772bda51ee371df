use anchor_lang::solana_program::pubkey::Pubkey;
use real_estate_factory::address::{factory_address, property_address, Address};

fn program() -> Address {
    Address::new([7u8; 32])
}

#[test]
fn factory_address_is_the_program_derived_address() {
    let (key, bump) = factory_address(&program()).unwrap();
    let (expected, expected_bump) =
        Pubkey::find_program_address(&[b"factory"], &Pubkey::new_from_array([7u8; 32]));
    assert_eq!(key.bytes, expected.to_bytes());
    assert_eq!(bump, expected_bump);
    assert_ne!(key.bytes, [7u8; 32]);
}

#[test]
fn property_address_depends_on_the_number() {
    let factory = Address::new([9u8; 32]);
    let (first, _) = property_address(&program(), &factory, 0).unwrap();
    let (second, _) = property_address(&program(), &factory, 1).unwrap();
    assert_ne!(first, second);
    let (expected, _) = Pubkey::find_program_address(
        &[b"property", &[9u8; 32], &1u64.to_le_bytes()],
        &Pubkey::new_from_array([7u8; 32]),
    );
    assert_eq!(second.bytes, expected.to_bytes());
}
