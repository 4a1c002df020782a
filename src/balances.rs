//! The balances pallet: how much each account holds, and transfers between accounts.
use vstd::prelude::*;

use crate::storage::StorageMap;
use crate::support::{Dispatch, DispatchError, DispatchResult};
use crate::types::{AccountId, Balance};

verus! {

/// The balance of `who`: its stored value, or zero where none is stored.
pub open spec fn balance_of(balances: Map<Seq<char>, Balance>, who: Seq<char>) -> Balance {
    if balances.contains_key(who) {
        balances[who]
    } else {
        0
    }
}

/// The balances after `caller` moves `amount` to `to`, and the result.
///
/// The caller must hold at least `amount`. A transfer to oneself then changes
/// nothing. Otherwise the receiver's new balance must fit in a `Balance`, and
/// both balances are written together.
pub open spec fn transfer_outcome(
    balances: Map<Seq<char>, Balance>,
    caller: Seq<char>,
    to: Seq<char>,
    amount: Balance,
) -> (Map<Seq<char>, Balance>, DispatchResult) {
    let from_balance = balance_of(balances, caller);
    let to_balance = balance_of(balances, to);
    if from_balance < amount {
        (balances, Err(DispatchError::InsufficientFunds))
    } else if caller == to {
        (balances, Ok(()))
    } else if to_balance + amount > Balance::MAX {
        (balances, Err(DispatchError::Overflow))
    } else {
        (
            balances.insert(caller, (from_balance - amount) as Balance).insert(
                to,
                (to_balance + amount) as Balance,
            ),
            Ok(()),
        )
    }
}

/// The balances pallet.
pub struct Pallet {
    /// A storage map from accounts to their balances.
    balances: StorageMap<Balance>,
}

impl View for Pallet {
    type V = Map<Seq<char>, Balance>;

    closed spec fn view(&self) -> Map<Seq<char>, Balance> {
        self.balances@
    }
}

impl Pallet {
    /// The balance map is well formed.
    pub closed spec fn wf(&self) -> bool {
        self.balances.wf()
    }

    /// A new balances pallet, in which no balance is stored.
    pub fn new() -> (r: Self)
        ensures
            r.wf(),
            r@ == Map::<Seq<char>, Balance>::empty(),
    {
        Pallet { balances: StorageMap::new() }
    }

    /// Sets the balance of `who` to `amount`.
    pub fn set_balance(&mut self, who: &AccountId, amount: Balance)
        requires
            old(self).wf(),
        ensures
            final(self).wf(),
            final(self)@ == old(self)@.insert(who@, amount),
    {
        self.balances.insert(who.clone(), amount);
    }

    /// The balance of `who`; zero where none is stored.
    pub fn balance(&self, who: &AccountId) -> (r: Balance)
        requires
            self.wf(),
        ensures
            r == balance_of(self@, who@),
    {
        match self.balances.get(who) {
            Some(b) => *b,
            None => 0,
        }
    }

    /// Moves `amount` from `caller` to `to`, with checked arithmetic on both sides.
    pub fn transfer(&mut self, caller: AccountId, to: AccountId, amount: Balance) -> (r:
        DispatchResult)
        requires
            old(self).wf(),
        ensures
            final(self).wf(),
            (final(self)@, r) == transfer_outcome(old(self)@, caller@, to@, amount),
    {
        let caller_balance = self.balance(&caller);
        let to_balance = self.balance(&to);

        let new_caller_balance = match caller_balance.checked_sub(amount) {
            Some(b) => b,
            None => {
                return Err(DispatchError::InsufficientFunds);
            },
        };
        if caller == to {
            return Ok(());
        }
        let new_to_balance = match to_balance.checked_add(amount) {
            Some(b) => b,
            None => {
                return Err(DispatchError::Overflow);
            },
        };

        self.balances.insert(caller, new_caller_balance);
        self.balances.insert(to, new_to_balance);
        Ok(())
    }
}

/// The calls that the balances pallet exposes.
pub enum Call {
    /// Move `amount` from the caller to `to`.
    Transfer { to: AccountId, amount: Balance },
}

impl Dispatch for Pallet {
    type Caller = AccountId;

    type Call = Call;

    open spec fn well_formed(&self) -> bool {
        self.wf()
    }

    open spec fn spec_dispatch(
        state: Map<Seq<char>, Balance>,
        caller: AccountId,
        call: Call,
    ) -> (Map<Seq<char>, Balance>, DispatchResult) {
        match call {
            Call::Transfer { to, amount } => transfer_outcome(state, caller@, to@, amount),
        }
    }

    fn dispatch(&mut self, caller: AccountId, call: Call) -> (r: DispatchResult) {
        match call {
            Call::Transfer { to, amount } => self.transfer(caller, to, amount),
        }
    }
}

/// A transfer from an account that holds less than the amount fails with
/// `InsufficientFunds`; one that would lift the receiver's balance past the
/// largest balance fails with `Overflow`. Either way no balance changes.
pub proof fn lemma_transfer_safety(
    balances: Map<Seq<char>, Balance>,
    caller: Seq<char>,
    to: Seq<char>,
    amount: Balance,
)
    ensures
        balance_of(balances, caller) < amount ==> transfer_outcome(balances, caller, to, amount)
            == (balances, Err::<(), DispatchError>(DispatchError::InsufficientFunds)),
        balance_of(balances, caller) >= amount && caller != to && balance_of(balances, to)
            + amount > Balance::MAX ==> transfer_outcome(balances, caller, to, amount) == (
            balances,
            Err::<(), DispatchError>(DispatchError::Overflow),
        ),
{
}

/// A successful transfer between two distinct accounts takes exactly `amount`
/// from the caller and gives exactly `amount` to the receiver, so that the sum
/// of their balances is unchanged.
pub proof fn lemma_transfer_conservation(
    balances: Map<Seq<char>, Balance>,
    caller: Seq<char>,
    to: Seq<char>,
    amount: Balance,
)
    requires
        caller != to,
        transfer_outcome(balances, caller, to, amount).1 is Ok,
    ensures
        ({
            let after = transfer_outcome(balances, caller, to, amount).0;
            &&& balance_of(after, caller) == balance_of(balances, caller) - amount
            &&& balance_of(after, to) == balance_of(balances, to) + amount
            &&& balance_of(after, caller) + balance_of(after, to) == balance_of(balances, caller)
                + balance_of(balances, to)
        }),
{
}

/// A transfer from an account to itself, of no more than it holds, succeeds and
/// leaves its balance as it was.
pub proof fn lemma_self_transfer_idempotent(
    balances: Map<Seq<char>, Balance>,
    who: Seq<char>,
    amount: Balance,
)
    requires
        balance_of(balances, who) >= amount,
    ensures
        transfer_outcome(balances, who, who, amount).1 is Ok,
        balance_of(transfer_outcome(balances, who, who, amount).0, who) == balance_of(
            balances,
            who,
        ),
{
}

} // verus!
