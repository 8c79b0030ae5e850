use hmt_escrow::derive::find_authority_bump_seed;
use hmt_escrow::error::EscrowError;
use hmt_escrow::instruction::InitializeArgs;
use hmt_escrow::processor::{process, process_initialize, AccountView, TOKEN_ACCOUNT_LEN};
use hmt_escrow::state::{Escrow, EscrowState, RECORD_LEN};
use hmt_escrow::Address;
use spl_token::solana_program::program_option::COption;
use spl_token::solana_program::program_pack::Pack;
use spl_token::solana_program::pubkey::Pubkey as TokenPubkey;
#[allow(deprecated)]
use spl_token::state::{Account as TokenAccount, AccountState};

fn addr(fill: u8) -> Address {
    Address { bytes: [fill; 32] }
}

/// Token account bytes in the dependent token program's own packed layout.
fn token_account_data(mint: &Address, authority: &Address) -> Vec<u8> {
    let account = TokenAccount {
        mint: TokenPubkey::new_from_array(mint.bytes),
        owner: TokenPubkey::new_from_array(authority.bytes),
        amount: 0,
        delegate: COption::None,
        state: AccountState::Initialized,
        is_native: COption::None,
        delegated_amount: 0,
        close_authority: COption::None,
    };
    let mut buf = vec![0u8; TokenAccount::LEN];
    TokenAccount::pack(account, &mut buf).expect("packing a token account succeeds");
    buf
}

struct Fixture {
    program_id: Address,
    token_program_id: Address,
    record: AccountView,
    token: AccountView,
    args: InitializeArgs,
    bump_seed: u8,
}

fn fixture() -> Fixture {
    let program_id = addr(70);
    let token_program_id = addr(71);
    let escrow_address = addr(80);
    let escrow_token_address = addr(81);
    let mint = addr(82);
    let (authority, bump_seed) = find_authority_bump_seed(&program_id, &escrow_address)
        .expect("a viable bump seed exists");
    let args = InitializeArgs {
        mint,
        escrow_token_account: escrow_token_address,
        launcher: addr(83),
        canceler: addr(84),
        canceler_token_account: addr(85),
        duration: 10_000,
    };
    Fixture {
        program_id,
        token_program_id,
        record: AccountView {
            address: escrow_address,
            owner: program_id,
            data: vec![0u8; RECORD_LEN],
        },
        token: AccountView {
            address: escrow_token_address,
            owner: token_program_id,
            data: token_account_data(&mint, &authority),
        },
        args,
        bump_seed,
    }
}

#[test]
fn test_hmt_escrow_initialize() {
    let mut f = fixture();
    let request = f.args.encode();
    process(
        &f.program_id,
        &f.token_program_id,
        &mut f.record,
        &f.token,
        &request,
    )
    .expect("initialize succeeds");

    assert_eq!(f.record.data.len(), RECORD_LEN);
    let escrow = Escrow::unpack(&f.record.data).expect("record reads back");
    assert_eq!(escrow.state, EscrowState::Launched);
    assert_eq!(escrow.bump_seed, f.bump_seed);
    assert_eq!(escrow.token_mint, f.args.mint);
    assert_eq!(escrow.token_account, f.args.escrow_token_account);
    assert_eq!(escrow.launcher, f.args.launcher);
    assert_eq!(escrow.canceler, f.args.canceler);
    assert_eq!(escrow.canceler_token_account, f.args.canceler_token_account);
    assert_eq!(escrow.duration, 10_000);
}

#[test]
fn initialize_twice_is_rejected_and_leaves_the_record_unchanged() {
    let mut f = fixture();
    process_initialize(
        &f.program_id,
        &f.token_program_id,
        &mut f.record,
        &f.token,
        &f.args,
    )
    .expect("first initialize succeeds");
    let after_first = f.record.data.clone();

    let second = process_initialize(
        &f.program_id,
        &f.token_program_id,
        &mut f.record,
        &f.token,
        &f.args,
    );
    assert_eq!(second, Err(EscrowError::AlreadyInitialized));
    assert_eq!(f.record.data, after_first);
}

#[test]
fn initialize_rejects_foreign_authority() {
    let mut f = fixture();
    let foreign = addr(99);
    let token = AccountView {
        address: f.token.address,
        owner: f.token.owner,
        data: token_account_data(&f.args.mint, &foreign),
    };
    let r = process_initialize(
        &f.program_id,
        &f.token_program_id,
        &mut f.record,
        &token,
        &f.args,
    );
    assert_eq!(r, Err(EscrowError::InvalidAuthority));
    assert_eq!(f.record.data, vec![0u8; RECORD_LEN]);
}

#[test]
fn initialize_rejects_wrong_record_size() {
    for len in [0, RECORD_LEN - 1, RECORD_LEN + 1] {
        let mut f = fixture();
        f.record.data = vec![0u8; len];
        let r = process_initialize(
            &f.program_id,
            &f.token_program_id,
            &mut f.record,
            &f.token,
            &f.args,
        );
        assert_eq!(r, Err(EscrowError::InvalidAccountSize));
    }
}

#[test]
fn initialize_rejects_wrong_token_account_size() {
    let mut f = fixture();
    let mut data = f.token.data.clone();
    data.pop();
    let token = AccountView {
        address: f.token.address,
        owner: f.token.owner,
        data,
    };
    let r = process_initialize(
        &f.program_id,
        &f.token_program_id,
        &mut f.record,
        &token,
        &f.args,
    );
    assert_eq!(r, Err(EscrowError::InvalidAccountSize));
    assert_eq!(f.token.data.len(), TOKEN_ACCOUNT_LEN);
}

#[test]
fn initialize_rejects_foreign_record_owner() {
    let mut f = fixture();
    f.record.owner = addr(1);
    let r = process_initialize(
        &f.program_id,
        &f.token_program_id,
        &mut f.record,
        &f.token,
        &f.args,
    );
    assert_eq!(r, Err(EscrowError::InvalidOwner));
}

#[test]
fn initialize_rejects_foreign_token_program() {
    let mut f = fixture();
    let token = AccountView {
        address: f.token.address,
        owner: addr(2),
        data: f.token.data.clone(),
    };
    let r = process_initialize(
        &f.program_id,
        &f.token_program_id,
        &mut f.record,
        &token,
        &f.args,
    );
    assert_eq!(r, Err(EscrowError::InvalidOwner));
}

#[test]
fn initialize_rejects_substituted_token_account() {
    let mut f = fixture();
    let token = AccountView {
        address: addr(6),
        owner: f.token.owner,
        data: f.token.data.clone(),
    };
    let r = process_initialize(
        &f.program_id,
        &f.token_program_id,
        &mut f.record,
        &token,
        &f.args,
    );
    assert_eq!(r, Err(EscrowError::InvalidAuthority));
}

#[test]
fn initialize_rejects_mint_mismatch() {
    let mut f = fixture();
    let other_mint = addr(90);
    let (authority, _) = find_authority_bump_seed(&f.program_id, &f.record.address)
        .expect("a viable bump seed exists");
    let token = AccountView {
        address: f.token.address,
        owner: f.token.owner,
        data: token_account_data(&other_mint, &authority),
    };
    let r = process_initialize(
        &f.program_id,
        &f.token_program_id,
        &mut f.record,
        &token,
        &f.args,
    );
    assert_eq!(r, Err(EscrowError::MintMismatch));
}

#[test]
fn process_rejects_malformed_request_bytes() {
    let mut f = fixture();
    let r = process(
        &f.program_id,
        &f.token_program_id,
        &mut f.record,
        &f.token,
        &vec![9u8, 9, 9],
    );
    assert_eq!(r, Err(EscrowError::InvalidInstructionData));
    assert_eq!(f.record.data, vec![0u8; RECORD_LEN]);
}
