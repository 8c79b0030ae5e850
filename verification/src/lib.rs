//! The core of a custodial escrow program for an account-model ledger: the
//! fixed-size escrow record and its packed layout, the keyless custodian
//! authority deriver, the binary request codec, the instruction processor
//! that re-validates every account it is handed, and the client-side
//! planner that assembles the create-escrow batch.

pub mod client;
pub mod derive;
pub mod encoding;
pub mod error;
pub mod instruction;
pub mod processor;
pub mod state;

use vstd::prelude::*;

verus! {

/// A 32-byte ledger address.
#[derive(Clone, Copy, Debug, PartialEq, Eq)]
pub struct Address {
    pub bytes: [u8; 32],
}

impl View for Address {
    type V = Seq<u8>;

    open spec fn view(&self) -> Seq<u8> {
        self.bytes@
    }
}

/// Compares two addresses byte for byte.
pub fn address_eq(a: &Address, b: &Address) -> (r: bool)
    ensures
        r == (a@ == b@),
{
    let mut i: usize = 0;
    while i < 32
        invariant
            i <= 32,
            forall|j: int| 0 <= j < i ==> a@[j] == b@[j],
        decreases 32 - i,
    {
        if a.bytes[i] != b.bytes[i] {
            return false;
        }
        i += 1;
    }
    proof {
        assert(a@ =~= b@);
    }
    true
}

} // verus!
