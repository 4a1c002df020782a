//! The system pallet: the current block number and a nonce per account.
use vstd::prelude::*;

use crate::storage::StorageMap;
use crate::types::{AccountId, BlockNumber, Nonce};

verus! {

/// What the system pallet holds.
pub struct State {
    pub block_number: BlockNumber,
    pub nonces: Map<Seq<char>, Nonce>,
}

/// The nonce of `who`: its stored value, or zero where none is stored.
pub open spec fn nonce_of(nonces: Map<Seq<char>, Nonce>, who: Seq<char>) -> Nonce {
    if nonces.contains_key(who) {
        nonces[who]
    } else {
        0
    }
}

/// The system pallet: low level state that the runtime keeps for itself.
pub struct Pallet {
    /// The current block number.
    block_number: BlockNumber,
    /// A map from an account to its nonce.
    nonce: StorageMap<Nonce>,
}

impl View for Pallet {
    type V = State;

    closed spec fn view(&self) -> State {
        State { block_number: self.block_number, nonces: self.nonce@ }
    }
}

impl Pallet {
    /// The nonce map is well formed.
    pub closed spec fn wf(&self) -> bool {
        self.nonce.wf()
    }

    /// A new system pallet: block zero, and no nonce stored.
    pub fn new() -> (r: Self)
        ensures
            r.wf(),
            r@ == (State { block_number: 0, nonces: Map::empty() }),
    {
        Pallet { block_number: 0, nonce: StorageMap::new() }
    }

    /// The current block number.
    pub fn block_number(&self) -> (r: BlockNumber)
        ensures
            r == self@.block_number,
    {
        self.block_number
    }

    /// Increases the block number by one.
    pub fn inc_block_number(&mut self)
        requires
            old(self).wf(),
            old(self)@.block_number < BlockNumber::MAX,
        ensures
            final(self).wf(),
            final(self)@ == (State {
                block_number: (old(self)@.block_number + 1) as BlockNumber,
                ..old(self)@
            }),
    {
        self.block_number = self.block_number + 1;
    }

    /// Increases the nonce of `who` by one; a missing nonce counts as zero.
    pub fn inc_nonce(&mut self, who: &AccountId)
        requires
            old(self).wf(),
            nonce_of(old(self)@.nonces, who@) < Nonce::MAX,
        ensures
            final(self).wf(),
            final(self)@ == (State {
                nonces: old(self)@.nonces.insert(
                    who@,
                    (nonce_of(old(self)@.nonces, who@) + 1) as Nonce,
                ),
                ..old(self)@
            }),
    {
        let nonce: Nonce = match self.nonce.get(who) {
            Some(n) => *n,
            None => 0,
        };
        self.nonce.insert(who.clone(), nonce + 1);
    }

    /// The nonce stored for `who`, if any.
    pub fn nonce(&self, who: &AccountId) -> (r: Option<Nonce>)
        requires
            self.wf(),
        ensures
            r == (if self@.nonces.contains_key(who@) {
                Some(self@.nonces[who@])
            } else {
                None
            }),
    {
        match self.nonce.get(who) {
            Some(n) => Some(*n),
            None => None,
        }
    }
}

} // verus!
