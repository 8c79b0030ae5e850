use hmt_escrow::derive::{derive_authority, find_authority_bump_seed};
use hmt_escrow::Address;
use solana_program::pubkey::Pubkey;

fn addr(fill: u8) -> Address {
    Address { bytes: [fill; 32] }
}

#[test]
fn derivation_matches_the_ledger_search() {
    let program = addr(7);
    let record = addr(9);
    let (authority, bump) =
        find_authority_bump_seed(&program, &record).expect("a viable bump seed exists");

    let program_pk = Pubkey::new_from_array(program.bytes);
    let record_pk = Pubkey::new_from_array(record.bytes);
    let (expected, expected_bump) =
        Pubkey::find_program_address(&[record_pk.as_ref()], &program_pk);
    assert_eq!(authority.bytes, expected.to_bytes());
    assert_eq!(bump, expected_bump);
}

#[test]
fn derivation_is_deterministic() {
    let program = addr(42);
    let record = addr(250);
    let first = find_authority_bump_seed(&program, &record).expect("derivation succeeds");
    let second = find_authority_bump_seed(&program, &record).expect("derivation succeeds");
    assert_eq!(first.0.bytes, second.0.bytes);
    assert_eq!(first.1, second.1);
}

#[test]
fn derived_authority_is_not_a_signing_curve_point() {
    for fill in [0u8, 1, 33, 77, 200] {
        let program = addr(fill.wrapping_add(3));
        let record = addr(fill);
        let (authority, _) =
            find_authority_bump_seed(&program, &record).expect("derivation succeeds");
        let authority_pk = Pubkey::new_from_array(authority.bytes);
        assert!(!authority_pk.is_on_curve());
    }
}

#[test]
fn stored_bump_rederives_the_authority() {
    let program = addr(7);
    let record = addr(9);
    let (authority, bump) =
        find_authority_bump_seed(&program, &record).expect("a viable bump seed exists");

    let rederived = derive_authority(&program, &record, bump)
        .expect("the stored bump yields a keyless address");
    assert_eq!(rederived.bytes, authority.bytes);

    let program_pk = Pubkey::new_from_array(program.bytes);
    let record_pk = Pubkey::new_from_array(record.bytes);
    let expected =
        Pubkey::create_program_address(&[record_pk.as_ref(), &[bump]], &program_pk)
            .expect("the stored bump yields a keyless address");
    assert_eq!(rederived.bytes, expected.to_bytes());
}

#[test]
fn different_records_derive_different_authorities() {
    let program = addr(7);
    let (a1, _) = find_authority_bump_seed(&program, &addr(1)).expect("derivation succeeds");
    let (a2, _) = find_authority_bump_seed(&program, &addr(2)).expect("derivation succeeds");
    assert_ne!(a1.bytes, a2.bytes);
}
