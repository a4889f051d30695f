use solana_program::pubkey::Pubkey;
use std::str::FromStr;
use token_metadata::address::{program_id, Address};
use token_metadata::holder_delegate_record::{HolderDelegateRecord, HolderDelegateRoleSeed};
use token_metadata::pda::{create_program_address, find_program_address, PdaError};

fn key(n: u8) -> Address {
    Address::new([n; 32])
}

#[test]
fn program_id_is_the_published_address() {
    let expected = Pubkey::from_str("metaqbxxUerdq28cj1RbAWkYQm3ybzjb6a8bt518x1s").unwrap();
    assert_eq!(program_id().bytes, expected.to_bytes());
}

#[test]
fn role_label_is_the_name_of_the_role() {
    assert_eq!(HolderDelegateRoleSeed::PrintDelegate.to_string(), "print_delegate");
}

#[test]
fn find_pda_agrees_with_the_host_library() {
    let (mint, owner, delegate) = (key(1), key(2), key(3));
    let program = Pubkey::new_from_array(program_id().bytes);
    let (expected, expected_bump) = Pubkey::find_program_address(
        &[
            "metadata".as_bytes(),
            program.as_ref(),
            &mint.bytes,
            "print_delegate".as_bytes(),
            &owner.bytes,
            &delegate.bytes,
        ],
        &program,
    );
    let (address, bump) =
        HolderDelegateRecord::find_pda(&mint, HolderDelegateRoleSeed::PrintDelegate, &owner, &delegate)
            .unwrap();
    assert_eq!(address.bytes, expected.to_bytes());
    assert_eq!(bump, expected_bump);
    assert_ne!(address, mint);
}

#[test]
fn create_pda_with_the_found_bump_gives_the_found_address() {
    let (mint, owner, delegate) = (key(7), key(8), key(9));
    let role = HolderDelegateRoleSeed::PrintDelegate;
    let (address, bump) = HolderDelegateRecord::find_pda(&mint, role, &owner, &delegate).unwrap();
    assert_eq!(HolderDelegateRecord::create_pda(mint, role, owner, delegate, bump), Ok(address));
    let again = HolderDelegateRecord::find_pda(&mint, role, &owner, &delegate).unwrap();
    assert_eq!(again, (address, bump));
}

#[test]
fn create_pda_refuses_a_bump_above_the_canonical_one() {
    let (mint, owner, delegate) = (key(7), key(8), key(9));
    let role = HolderDelegateRoleSeed::PrintDelegate;
    let (_, bump) = HolderDelegateRecord::find_pda(&mint, role, &owner, &delegate).unwrap();
    let mut b = bump;
    while b < 255 {
        b += 1;
        assert_eq!(
            HolderDelegateRecord::create_pda(mint, role, owner, delegate, b),
            Err(PdaError::InvalidSeeds)
        );
    }
}

#[test]
fn seeds_beyond_the_limits_are_refused() {
    let id = program_id();
    let long = vec![vec![1u8; 33]];
    assert_eq!(create_program_address(&long, &id), Err(PdaError::MaxSeedLengthExceeded));
    assert_eq!(find_program_address(&long, &id), None);
    let many = vec![vec![1u8]; 17];
    assert_eq!(create_program_address(&many, &id), Err(PdaError::MaxSeedLengthExceeded));
    let sixteen = vec![vec![1u8]; 16];
    assert_ne!(create_program_address(&sixteen, &id), Err(PdaError::MaxSeedLengthExceeded));
    assert_eq!(find_program_address(&sixteen, &id), None);
    let fifteen = vec![vec![1u8; 32]; 15];
    assert!(find_program_address(&fifteen, &id).is_some());
}

#[test]
fn derived_address_is_the_hash_that_the_host_library_gives() {
    let id = program_id();
    let host = Pubkey::new_from_array(id.bytes);
    let mut seen_ok = false;
    let mut seen_err = false;
    for n in 0..40u8 {
        let seeds = vec![b"vault".to_vec(), vec![n]];
        let expected = Pubkey::create_program_address(&[b"vault", &[n]], &host);
        match create_program_address(&seeds, &id) {
            Ok(address) => {
                seen_ok = true;
                assert_eq!(expected.unwrap().to_bytes(), address.bytes);
            }
            Err(e) => {
                seen_err = true;
                assert_eq!(e, PdaError::InvalidSeeds);
                assert!(expected.is_err());
            }
        }
    }
    assert!(seen_ok && seen_err);
}
