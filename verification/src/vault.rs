//! Movements of funds between a borrower's own account and the vault that
//! holds the collateral. The library decides which movement an operation
//! calls for; carrying it out is left to the ledger.

use vstd::prelude::*;
use crate::identity::Identity;

verus! {

/// Who authorizes a movement of funds.
#[derive(Clone, Copy, Debug, PartialEq, Eq)]
pub enum Signatory {
    /// The owner of the source account, who signed the call.
    Owner,
    /// The escrow of `borrower`, which signs as the address derived from its
    /// label, the borrower and `bump`.
    Escrow { borrower: Identity, bump: u8 },
}

/// One movement of `amount` units from `from` to `to`.
#[derive(Clone, Copy, Debug, PartialEq, Eq)]
pub struct Transfer {
    pub from: Identity,
    pub to: Identity,
    /// The account in whose name the funds are moved.
    pub authority: Identity,
    pub amount: u64,
    pub signed_by: Signatory,
}

/// The label under which escrow addresses are derived: the bytes of "escrow".
pub open spec fn escrow_label() -> Seq<u8> {
    seq![101u8, 115u8, 99u8, 114u8, 111u8, 119u8]
}

impl Signatory {
    /// The seeds with which the signatory signs: none for an owner; for an
    /// escrow its label, the borrower's bytes and the nonce.
    pub open spec fn seeds_of(self) -> Seq<Seq<u8>> {
        match self {
            Signatory::Owner => Seq::<Seq<u8>>::empty(),
            Signatory::Escrow { borrower, bump } => seq![escrow_label(), borrower.bytes@, seq![bump]],
        }
    }

    /// Returns the seeds with which the signatory signs.
    pub fn seeds(&self) -> (seeds: Vec<Vec<u8>>)
        ensures
            seeds.deep_view() == self.seeds_of(),
    {
        let mut seeds: Vec<Vec<u8>> = Vec::new();
        match self {
            Signatory::Owner => {
                assert(seeds.deep_view() =~~= self.seeds_of());
            },
            Signatory::Escrow { borrower, bump } => {
                let mut label: Vec<u8> = Vec::new();
                label.push(101u8);
                label.push(115u8);
                label.push(99u8);
                label.push(114u8);
                label.push(111u8);
                label.push(119u8);
                let mut key: Vec<u8> = Vec::new();
                let mut i: usize = 0;
                while i < 32
                    invariant
                        i <= 32,
                        key@.len() == i,
                        forall|j: int| 0 <= j < i ==> key@[j] == borrower.bytes@[j],
                    decreases 32 - i,
                {
                    key.push(borrower.bytes[i]);
                    i = i + 1;
                }
                let mut nonce: Vec<u8> = Vec::new();
                nonce.push(*bump);
                assert(label@ =~= escrow_label());
                assert(key@ =~= borrower.bytes@);
                assert(nonce@ =~= seq![*bump]);
                seeds.push(label);
                seeds.push(key);
                seeds.push(nonce);
                assert(seeds.deep_view() =~~= self.seeds_of());
            },
        }
        seeds
    }
}

} // verus!
