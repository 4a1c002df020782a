//! The proof-of-existence pallet: which account owns which content.
use vstd::prelude::*;

use crate::storage::StorageMap;
use crate::support::{Dispatch, DispatchError, DispatchResult};
use crate::types::{AccountId, Content};

verus! {

/// The claims after `caller` claims `content`, and the result: content that
/// already has an owner cannot be claimed again.
pub open spec fn create_claim_outcome(
    claims: Map<Seq<char>, Seq<char>>,
    caller: Seq<char>,
    content: Seq<char>,
) -> (Map<Seq<char>, Seq<char>>, DispatchResult) {
    if claims.contains_key(content) {
        (claims, Err(DispatchError::AlreadyClaimed))
    } else {
        (claims.insert(content, caller), Ok(()))
    }
}

/// The claims after `caller` revokes its claim on `content`, and the result:
/// only an existing claim, and only by its owner, can be revoked.
pub open spec fn revoke_claim_outcome(
    claims: Map<Seq<char>, Seq<char>>,
    caller: Seq<char>,
    content: Seq<char>,
) -> (Map<Seq<char>, Seq<char>>, DispatchResult) {
    if !claims.contains_key(content) {
        (claims, Err(DispatchError::NoSuchClaim))
    } else if claims[content] != caller {
        (claims, Err(DispatchError::NotClaimOwner))
    } else {
        (claims.remove(content), Ok(()))
    }
}

/// The proof-of-existence pallet. Each content has at most one owner.
pub struct Pallet {
    /// A storage map from content to the account that claimed it.
    claims: StorageMap<AccountId>,
}

impl View for Pallet {
    type V = Map<Seq<char>, Seq<char>>;

    closed spec fn view(&self) -> Map<Seq<char>, Seq<char>> {
        self.claims@.map_values(|owner: AccountId| owner@)
    }
}

impl Pallet {
    /// The claim map is well formed.
    pub closed spec fn wf(&self) -> bool {
        self.claims.wf()
    }

    /// A new pallet, in which nothing is claimed.
    pub fn new() -> (r: Self)
        ensures
            r.wf(),
            r@ == Map::<Seq<char>, Seq<char>>::empty(),
    {
        let r = Pallet { claims: StorageMap::new() };
        assert(r@ =~= Map::<Seq<char>, Seq<char>>::empty());
        r
    }

    /// The owner of `claim`, if it has one.
    pub fn get_claim(&self, claim: &Content) -> (r: Option<&AccountId>)
        requires
            self.wf(),
        ensures
            match r {
                Some(owner) => self@.contains_key(claim@) && owner@ == self@[claim@],
                None => !self@.contains_key(claim@),
            },
    {
        self.claims.get(claim)
    }

    /// Claims `claim` for `caller`; fails if it already has an owner.
    pub fn create_claim(&mut self, caller: AccountId, claim: Content) -> (r: DispatchResult)
        requires
            old(self).wf(),
        ensures
            final(self).wf(),
            (final(self)@, r) == create_claim_outcome(old(self)@, caller@, claim@),
    {
        if self.claims.get(&claim).is_some() {
            return Err(DispatchError::AlreadyClaimed);
        }
        let ghost owner = caller@;
        self.claims.insert(claim, caller);
        assert(self@ =~= old(self)@.insert(claim@, owner));
        Ok(())
    }

    /// Revokes the claim of `caller` on `claim`; fails if the claim does not
    /// exist or belongs to another account.
    pub fn revoke_claim(&mut self, caller: AccountId, claim: Content) -> (r: DispatchResult)
        requires
            old(self).wf(),
        ensures
            final(self).wf(),
            (final(self)@, r) == revoke_claim_outcome(old(self)@, caller@, claim@),
    {
        let is_owner = match self.claims.get(&claim) {
            Some(owner) => *owner == caller,
            None => {
                return Err(DispatchError::NoSuchClaim);
            },
        };
        if !is_owner {
            return Err(DispatchError::NotClaimOwner);
        }
        self.claims.remove(&claim);
        assert(self@ =~= old(self)@.remove(claim@));
        Ok(())
    }
}

/// The calls that the proof-of-existence pallet exposes.
pub enum Call {
    /// Claim `claim` for the caller.
    CreateClaim { claim: Content },
    /// Revoke the caller's claim on `claim`.
    RevokeClaim { claim: Content },
}

impl Dispatch for Pallet {
    type Caller = AccountId;

    type Call = Call;

    open spec fn well_formed(&self) -> bool {
        self.wf()
    }

    open spec fn spec_dispatch(
        state: Map<Seq<char>, Seq<char>>,
        caller: AccountId,
        call: Call,
    ) -> (Map<Seq<char>, Seq<char>>, DispatchResult) {
        match call {
            Call::CreateClaim { claim } => create_claim_outcome(state, caller@, claim@),
            Call::RevokeClaim { claim } => revoke_claim_outcome(state, caller@, claim@),
        }
    }

    fn dispatch(&mut self, caller: AccountId, call: Call) -> (r: DispatchResult) {
        match call {
            Call::CreateClaim { claim } => self.create_claim(caller, claim),
            Call::RevokeClaim { claim } => self.revoke_claim(caller, claim),
        }
    }
}

/// Claiming content that already has an owner fails with `AlreadyClaimed` and
/// changes nothing; claiming unowned content succeeds and makes the caller
/// its owner.
pub proof fn lemma_claim_exclusive(
    claims: Map<Seq<char>, Seq<char>>,
    caller: Seq<char>,
    content: Seq<char>,
)
    ensures
        claims.contains_key(content) ==> create_claim_outcome(claims, caller, content) == (
            claims,
            Err::<(), DispatchError>(DispatchError::AlreadyClaimed),
        ),
        !claims.contains_key(content) ==> {
            let (after, r) = create_claim_outcome(claims, caller, content);
            &&& r is Ok
            &&& after.contains_key(content)
            &&& after[content] == caller
        },
{
}

/// Revoking fails with `NoSuchClaim` where the content has no owner, and with
/// `NotClaimOwner` where its owner is another account, changing nothing;
/// revoking by the owner succeeds and clears the claim.
pub proof fn lemma_revoke_authorized(
    claims: Map<Seq<char>, Seq<char>>,
    caller: Seq<char>,
    content: Seq<char>,
)
    ensures
        !claims.contains_key(content) ==> revoke_claim_outcome(claims, caller, content) == (
            claims,
            Err::<(), DispatchError>(DispatchError::NoSuchClaim),
        ),
        claims.contains_key(content) && claims[content] != caller ==> revoke_claim_outcome(
            claims,
            caller,
            content,
        ) == (claims, Err::<(), DispatchError>(DispatchError::NotClaimOwner)),
        claims.contains_key(content) && claims[content] == caller ==> {
            let (after, r) = revoke_claim_outcome(claims, caller, content);
            &&& r is Ok
            &&& !after.contains_key(content)
        },
{
}

} // verus!
