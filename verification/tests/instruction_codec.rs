use hmt_escrow::error::EscrowError;
use hmt_escrow::instruction::{EscrowInstruction, InitializeArgs, INITIALIZE_LEN};
use hmt_escrow::Address;

fn addr(fill: u8) -> Address {
    Address { bytes: [fill; 32] }
}

fn sample_args() -> InitializeArgs {
    InitializeArgs {
        mint: addr(1),
        escrow_token_account: addr(2),
        launcher: addr(3),
        canceler: addr(4),
        canceler_token_account: addr(5),
        duration: 987_654_321_012,
    }
}

#[test]
fn encode_layout_is_fixed() {
    let args = sample_args();
    let bytes = args.encode();
    assert_eq!(bytes.len(), INITIALIZE_LEN);
    assert_eq!(bytes[0], 0);
    assert_eq!(&bytes[1..33], &[1u8; 32]);
    assert_eq!(&bytes[33..65], &[2u8; 32]);
    assert_eq!(&bytes[65..97], &[3u8; 32]);
    assert_eq!(&bytes[97..129], &[4u8; 32]);
    assert_eq!(&bytes[129..161], &[5u8; 32]);
    assert_eq!(&bytes[161..169], &987_654_321_012u64.to_le_bytes());
}

#[test]
fn encode_then_decode_round_trips() {
    let args = sample_args();
    let bytes = args.encode();
    let decoded = EscrowInstruction::decode(&bytes).expect("well-formed envelope");
    let EscrowInstruction::Initialize(d) = decoded;
    assert_eq!(d.mint, args.mint);
    assert_eq!(d.escrow_token_account, args.escrow_token_account);
    assert_eq!(d.launcher, args.launcher);
    assert_eq!(d.canceler, args.canceler);
    assert_eq!(d.canceler_token_account, args.canceler_token_account);
    assert_eq!(d.duration, args.duration);
}

#[test]
fn decode_rejects_truncated_input() {
    let mut bytes = sample_args().encode();
    bytes.pop();
    assert_eq!(
        EscrowInstruction::decode(&bytes),
        Err(EscrowError::InvalidInstructionData)
    );
    assert_eq!(
        EscrowInstruction::decode(&Vec::new()),
        Err(EscrowError::InvalidInstructionData)
    );
}

#[test]
fn decode_rejects_unknown_tag() {
    let mut bytes = sample_args().encode();
    bytes[0] = 1;
    assert_eq!(
        EscrowInstruction::decode(&bytes),
        Err(EscrowError::InvalidInstructionData)
    );
}

#[test]
fn decode_rejects_trailing_bytes() {
    let mut bytes = sample_args().encode();
    bytes.push(0);
    assert_eq!(
        EscrowInstruction::decode(&bytes),
        Err(EscrowError::InvalidInstructionData)
    );
}
