//! Client-side assembly of the create-escrow batch: pure planning logic.
//! The caller supplies fresh account addresses, rent quotes and balances; it
//! gets back the exact operation sequence to submit as one atomic batch.

use vstd::prelude::*;
use crate::Address;
use crate::derive::{find_authority_bump_seed, on_curve, spec_find_authority};
use crate::error::EscrowError;
use crate::instruction::InitializeArgs;
use crate::processor::TOKEN_ACCOUNT_LEN;
use crate::state::RECORD_LEN;

verus! {

/// One operation of the create-escrow batch, in plain values.
#[derive(Clone, Copy, Debug, PartialEq, Eq)]
pub enum PlanStep {
    /// Create a fresh account of `space` bytes funded with `lamports`,
    /// owned by program `owner`.
    CreateAccount { funder: Address, new_account: Address, lamports: u64, space: u64, owner: Address },
    /// Initialize `account` as a token account of `mint` whose authority is
    /// `authority`.
    InitializeTokenAccount { account: Address, mint: Address, authority: Address },
    /// Submit the escrow program's Initialize request for the record
    /// account `escrow`.
    InitializeEscrow { program_id: Address, escrow: Address, args: InitializeArgs },
}

/// The assembled create-escrow batch: its steps in submission order, the
/// rent-exemption total for every account it creates, and the custodian
/// authority the escrow token account must be bound to.
pub struct CreateEscrowPlan {
    pub steps: Vec<PlanStep>,
    pub rent_free_balance: u64,
    pub authority: Address,
    pub bump_seed: u8,
}

/// An optional address, or the default where none was given.
pub open spec fn spec_resolve(opt: Option<Address>, default: Address) -> Address {
    match opt {
        Some(a) => a,
        None => default,
    }
}

/// The exact step sequence of a create-escrow batch: create the escrow
/// token account and the record account, bind the token account to the
/// custodian `authority`, create and bind a canceler token account where
/// none was supplied, then submit Initialize.
pub open spec fn spec_plan_steps(
    program_id: Address,
    token_program_id: Address,
    fee_payer: Address,
    escrow_account: Address,
    escrow_token_account: Address,
    canceler_token_new: Address,
    mint: Address,
    launcher_r: Address,
    canceler_r: Address,
    canceler_token: Option<Address>,
    duration: u64,
    token_account_rent: u64,
    escrow_account_rent: u64,
    authority: Address,
) -> Seq<PlanStep> {
    seq![
        (PlanStep::CreateAccount {
            funder: fee_payer,
            new_account: escrow_token_account,
            lamports: token_account_rent,
            space: TOKEN_ACCOUNT_LEN as u64,
            owner: token_program_id,
        }),
        (PlanStep::CreateAccount {
            funder: fee_payer,
            new_account: escrow_account,
            lamports: escrow_account_rent,
            space: RECORD_LEN as u64,
            owner: program_id,
        }),
        (PlanStep::InitializeTokenAccount {
            account: escrow_token_account,
            mint: mint,
            authority: authority,
        }),
    ] + (if canceler_token is None {
        seq![
            (PlanStep::CreateAccount {
                funder: fee_payer,
                new_account: canceler_token_new,
                lamports: token_account_rent,
                space: TOKEN_ACCOUNT_LEN as u64,
                owner: token_program_id,
            }),
            (PlanStep::InitializeTokenAccount {
                account: canceler_token_new,
                mint: mint,
                authority: canceler_r,
            }),
        ]
    } else {
        Seq::<PlanStep>::empty()
    }) + seq![
        (PlanStep::InitializeEscrow {
            program_id: program_id,
            escrow: escrow_account,
            args: InitializeArgs {
                mint: mint,
                escrow_token_account: escrow_token_account,
                launcher: launcher_r,
                canceler: canceler_r,
                canceler_token_account: spec_resolve(canceler_token, canceler_token_new),
                duration: duration,
            },
        }),
    ]
}

/// Succeeds exactly when `balance` covers `required_balance`; otherwise
/// fails with `InsufficientFeePayerBalance`.
pub fn check_fee_payer_balance(balance: u64, required_balance: u64) -> (r: Result<
    (),
    EscrowError,
>)
    ensures
        r is Ok <==> balance >= required_balance,
        r is Err ==> r == Err::<(), EscrowError>(EscrowError::InsufficientFeePayerBalance),
{
    if balance < required_balance {
        Err(EscrowError::InsufficientFeePayerBalance)
    } else {
        Ok(())
    }
}

/// Assembles the create-escrow batch. `launcher` and `canceler` default to
/// `owner`; where no canceler token account is supplied the plan creates
/// one at `canceler_token_new` owned by the canceler. The rent total covers
/// every account the plan creates. Returns `None` exactly when no custodian
/// authority can be derived for the record address.
pub fn plan_create_escrow(
    program_id: &Address,
    token_program_id: &Address,
    fee_payer: &Address,
    owner: &Address,
    escrow_account: &Address,
    escrow_token_account: &Address,
    canceler_token_new: &Address,
    mint: &Address,
    launcher: Option<Address>,
    canceler: Option<Address>,
    canceler_token: Option<Address>,
    duration: u64,
    token_account_rent: u64,
    escrow_account_rent: u64,
) -> (r: Option<CreateEscrowPlan>)
    requires
        token_account_rent + escrow_account_rent + (if canceler_token is None {
            token_account_rent as int
        } else {
            0
        }) <= u64::MAX,
    ensures
        r is Some <==> spec_find_authority(program_id@, escrow_account@) is Some,
        r matches Some(plan) ==> (spec_find_authority(program_id@, escrow_account@) matches Some(
            (authority, bump),
        ) && plan.authority@ == authority && plan.bump_seed == bump && !on_curve(authority)
            && plan.steps@ == spec_plan_steps(
            *program_id,
            *token_program_id,
            *fee_payer,
            *escrow_account,
            *escrow_token_account,
            *canceler_token_new,
            *mint,
            spec_resolve(launcher, *owner),
            spec_resolve(canceler, *owner),
            canceler_token,
            duration,
            token_account_rent,
            escrow_account_rent,
            plan.authority,
        ) && plan.rent_free_balance == token_account_rent + escrow_account_rent + (
        if canceler_token is None {
            token_account_rent as int
        } else {
            0
        })),
{
    let (authority, bump_seed) = match find_authority_bump_seed(program_id, escrow_account) {
        Some(found) => found,
        None => {
            return None;
        },
    };
    let launcher_r = match launcher {
        Some(a) => a,
        None => *owner,
    };
    let canceler_r = match canceler {
        Some(a) => a,
        None => *owner,
    };
    let mut steps: Vec<PlanStep> = Vec::new();
    steps.push(
        PlanStep::CreateAccount {
            funder: *fee_payer,
            new_account: *escrow_token_account,
            lamports: token_account_rent,
            space: TOKEN_ACCOUNT_LEN as u64,
            owner: *token_program_id,
        },
    );
    steps.push(
        PlanStep::CreateAccount {
            funder: *fee_payer,
            new_account: *escrow_account,
            lamports: escrow_account_rent,
            space: RECORD_LEN as u64,
            owner: *program_id,
        },
    );
    steps.push(
        PlanStep::InitializeTokenAccount {
            account: *escrow_token_account,
            mint: *mint,
            authority: authority,
        },
    );
    let mut rent_free_balance: u64 = token_account_rent + escrow_account_rent;
    let canceler_token_r = match canceler_token {
        Some(a) => a,
        None => {
            steps.push(
                PlanStep::CreateAccount {
                    funder: *fee_payer,
                    new_account: *canceler_token_new,
                    lamports: token_account_rent,
                    space: TOKEN_ACCOUNT_LEN as u64,
                    owner: *token_program_id,
                },
            );
            steps.push(
                PlanStep::InitializeTokenAccount {
                    account: *canceler_token_new,
                    mint: *mint,
                    authority: canceler_r,
                },
            );
            rent_free_balance = rent_free_balance + token_account_rent;
            *canceler_token_new
        },
    };
    steps.push(
        PlanStep::InitializeEscrow {
            program_id: *program_id,
            escrow: *escrow_account,
            args: InitializeArgs {
                mint: *mint,
                escrow_token_account: *escrow_token_account,
                launcher: launcher_r,
                canceler: canceler_r,
                canceler_token_account: canceler_token_r,
                duration,
            },
        },
    );
    let plan = CreateEscrowPlan { steps, rent_free_balance, authority, bump_seed };
    proof {
        assert(plan.steps@ =~= spec_plan_steps(
            *program_id,
            *token_program_id,
            *fee_payer,
            *escrow_account,
            *escrow_token_account,
            *canceler_token_new,
            *mint,
            spec_resolve(launcher, *owner),
            spec_resolve(canceler, *owner),
            canceler_token,
            duration,
            token_account_rent,
            escrow_account_rent,
            plan.authority,
        ));
    }
    Some(plan)
}

} // verus!
