use bridge_governance::authority::{
    authority_from, derive_authority, guardian_set_seeds, DerivedAuthority, FEE_COLLECTOR_SEED,
    GUARDIAN_SET_SEED, UPGRADE_SEED,
};
use bridge_governance::bytes::{array_bytes, copy_bytes, copy_keys, same_key, u16_be, u32_be, u64_be};
use bridge_governance::error::Error;
use bridge_governance::instruction::account_meta;
use bridge_governance::types::{claim_seeds, GovernanceMessage};
use solana_program::pubkey::Pubkey;

#[test]
fn seeds_are_the_well_known_texts() {
    assert_eq!(&UPGRADE_SEED[..], b"upgrade");
    assert_eq!(&FEE_COLLECTOR_SEED[..], b"fee_collector");
    assert_eq!(&GUARDIAN_SET_SEED[..], b"GuardianSet");
}

#[test]
fn guardian_set_seeds_hold_the_index() {
    assert_eq!(guardian_set_seeds(0), vec![b"GuardianSet".to_vec(), vec![0, 0, 0, 0]]);
    assert_eq!(guardian_set_seeds(1), vec![b"GuardianSet".to_vec(), vec![0, 0, 0, 1]]);
    assert_eq!(
        guardian_set_seeds(0x0102_0304),
        vec![b"GuardianSet".to_vec(), vec![1, 2, 3, 4]]
    );
    assert_eq!(
        guardian_set_seeds(u32::MAX),
        vec![b"GuardianSet".to_vec(), vec![255, 255, 255, 255]]
    );
}

#[test]
fn claim_seeds_hold_emitter_and_sequence() {
    let message = GovernanceMessage {
        emitter_chain: 0x0102,
        emitter_address: [4; 32],
        sequence: 0x1112_1314_1516_1718,
        timestamp: 99,
        payload: (),
    };
    assert_eq!(
        claim_seeds(&message),
        vec![vec![4; 32], vec![1, 2], vec![0x11, 0x12, 0x13, 0x14, 0x15, 0x16, 0x17, 0x18]]
    );
}

#[test]
fn claim_seeds_differ_with_the_sequence() {
    let first = GovernanceMessage {
        emitter_chain: 1,
        emitter_address: [4; 32],
        sequence: 1,
        timestamp: 0,
        payload: (),
    };
    let second = GovernanceMessage { sequence: 256, ..first.clone() };
    assert_ne!(claim_seeds(&first), claim_seeds(&second));
    assert_eq!(claim_seeds(&first), claim_seeds(&first.clone()));
}

#[test]
fn big_endian_encodings() {
    assert_eq!(u16_be(0), vec![0, 0]);
    assert_eq!(u16_be(1), vec![0, 1]);
    assert_eq!(u16_be(0xabcd), vec![0xab, 0xcd]);
    assert_eq!(u16_be(0xabcd), 0xabcdu16.to_be_bytes().to_vec());
    assert_eq!(u32_be(0xdead_beef), vec![0xde, 0xad, 0xbe, 0xef]);
    assert_eq!(u32_be(7), 7u32.to_be_bytes().to_vec());
    assert_eq!(u64_be(u64::MAX), vec![255; 8]);
    assert_eq!(u64_be(0x0102_0304_0506_0708), vec![1, 2, 3, 4, 5, 6, 7, 8]);
    assert_eq!(u64_be(1 << 56), (1u64 << 56).to_be_bytes().to_vec());
}

#[test]
fn byte_helpers() {
    let mut key = [0u8; 32];
    key[0] = 1;
    key[31] = 2;
    assert!(same_key(&key, &key.clone()));
    assert!(!same_key(&key, &[0; 32]));
    let mut other = key;
    other[31] = 3;
    assert!(!same_key(&key, &other));
    assert_eq!(array_bytes(&key), key.to_vec());
    assert_eq!(array_bytes(&[1u8, 2, 3]), vec![1, 2, 3]);
    assert_eq!(array_bytes::<0>(&[]), Vec::<u8>::new());
    assert_eq!(copy_bytes(&vec![9, 8, 7]), vec![9, 8, 7]);
    assert_eq!(copy_bytes(&Vec::new()), Vec::<u8>::new());
    assert_eq!(copy_keys(&vec![[1; 20], [2; 20]]), vec![[1; 20], [2; 20]]);
}

#[test]
fn account_entry_keeps_its_parts() {
    let meta = account_meta([5; 32], true, false);
    assert_eq!(meta.pubkey, [5; 32]);
    assert!(meta.is_signer);
    assert!(!meta.is_writable);
}

#[test]
fn authority_takes_the_bump_that_was_found() {
    assert_eq!(
        authority_from(b"upgrade".to_vec(), Some(([3; 32], 254))),
        Ok(DerivedAuthority { seeds: vec![b"upgrade".to_vec()], bump: 254 })
    );
}

#[test]
fn failed_search_is_reported() {
    assert_eq!(authority_from(b"upgrade".to_vec(), None), Err(Error::DerivationFailed));
}

#[test]
fn seed_that_is_too_long_has_no_authority() {
    assert_eq!(derive_authority(vec![1; 33], &[7; 32]), Err(Error::DerivationFailed));
}

#[test]
fn derived_authority_signs_for_its_address() {
    let program = [7u8; 32];
    let authority = derive_authority(b"fee_collector".to_vec(), &program).unwrap();
    let (address, bump) =
        Pubkey::find_program_address(&[b"fee_collector"], &Pubkey::new_from_array(program));
    assert_eq!(authority.bump, bump);
    assert_eq!(authority.seeds, vec![b"fee_collector".to_vec()]);

    let signer_seeds = authority.signer_seeds();
    let slices: Vec<&[u8]> = signer_seeds.iter().map(|seed| seed.as_slice()).collect();
    assert_eq!(
        Pubkey::create_program_address(&slices, &Pubkey::new_from_array(program)),
        Ok(address)
    );
}

#[test]
fn bump_depends_on_seed_and_program() {
    let seen: Vec<u8> = (0u8..16)
        .map(|i| derive_authority(b"upgrade".to_vec(), &[i; 32]).unwrap().bump)
        .collect();
    for (i, bump) in seen.iter().enumerate() {
        let (_, expected) =
            Pubkey::find_program_address(&[b"upgrade"], &Pubkey::new_from_array([i as u8; 32]));
        assert_eq!(*bump, expected);
    }
    assert!(seen.iter().any(|bump| *bump != seen[0]));
}

#[test]
fn signer_seeds_end_with_the_bump() {
    let authority = DerivedAuthority { seeds: vec![vec![1, 2], vec![], vec![3]], bump: 9 };
    assert_eq!(authority.signer_seeds(), vec![vec![1, 2], vec![], vec![3], vec![9]]);
    let empty = DerivedAuthority { seeds: Vec::new(), bump: 0 };
    assert_eq!(empty.signer_seeds(), vec![vec![0]]);
}
