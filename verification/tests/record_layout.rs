use hmt_escrow::error::EscrowError;
use hmt_escrow::state::{Escrow, EscrowState, RECORD_LEN};
use hmt_escrow::Address;

fn addr(fill: u8) -> Address {
    Address { bytes: [fill; 32] }
}

fn sample_record() -> Escrow {
    Escrow {
        state: EscrowState::Launched,
        bump_seed: 253,
        token_mint: addr(11),
        token_account: addr(12),
        launcher: addr(13),
        canceler: addr(14),
        canceler_token_account: addr(15),
        duration: 10_000,
    }
}

#[test]
fn pack_layout_is_fixed() {
    let e = sample_record();
    let bytes = e.pack();
    assert_eq!(bytes.len(), RECORD_LEN);
    assert_eq!(bytes[0], 1);
    assert_eq!(bytes[1], 253);
    assert_eq!(&bytes[2..34], &[11u8; 32]);
    assert_eq!(&bytes[34..66], &[12u8; 32]);
    assert_eq!(&bytes[66..98], &[13u8; 32]);
    assert_eq!(&bytes[98..130], &[14u8; 32]);
    assert_eq!(&bytes[130..162], &[15u8; 32]);
    assert_eq!(&bytes[162..170], &10_000u64.to_le_bytes());
}

#[test]
fn pack_then_unpack_round_trips() {
    let e = sample_record();
    let bytes = e.pack();
    let u = Escrow::unpack(&bytes).expect("well-formed record");
    assert_eq!(u, e);
}

#[test]
fn unpack_uninitialized_record() {
    let zeroed = vec![0u8; RECORD_LEN];
    let u = Escrow::unpack(&zeroed).expect("zeroed record is well formed");
    assert_eq!(u.state, EscrowState::Uninitialized);
    assert_eq!(u.bump_seed, 0);
    assert_eq!(u.duration, 0);
}

#[test]
fn unpack_rejects_wrong_length() {
    assert_eq!(
        Escrow::unpack(&vec![0u8; RECORD_LEN - 1]),
        Err(EscrowError::InvalidAccountSize)
    );
    assert_eq!(
        Escrow::unpack(&vec![0u8; RECORD_LEN + 1]),
        Err(EscrowError::InvalidAccountSize)
    );
}

#[test]
fn unpack_rejects_out_of_range_state_tag() {
    let mut bytes = vec![0u8; RECORD_LEN];
    bytes[0] = 2;
    assert_eq!(
        Escrow::unpack(&bytes),
        Err(EscrowError::InvalidInstructionData)
    );
}
