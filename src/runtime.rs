//! The runtime: one instance of each pallet, the calls they expose, and the
//! execution of blocks.
use vstd::prelude::*;

use crate::balances;
use crate::proof_of_existence;
use crate::support::{Dispatch, DispatchError, DispatchResult, Extrinsic};
use crate::system::{self, nonce_of};
use crate::types::{AccountId, Balance, Block, BlockNumber, Nonce};

verus! {

/// What the runtime holds: the state of each pallet.
pub struct RuntimeState {
    pub system: system::State,
    pub balances: Map<Seq<char>, Balance>,
    pub claims: Map<Seq<char>, Seq<char>>,
}

/// All the calls that the runtime exposes: each pallet's calls, tagged by pallet.
pub enum RuntimeCall {
    Balances(balances::Call),
    ProofOfExistence(proof_of_existence::Call),
}

/// An extrinsic whose call failed, as reported by block execution.
#[derive(Clone, Copy, Debug, PartialEq, Eq, Structural)]
pub struct ExtrinsicFailure {
    /// The number of the block that held the extrinsic.
    pub block_number: BlockNumber,
    /// The position of the extrinsic in its block.
    pub index: usize,
    /// Why its call failed.
    pub error: DispatchError,
}

/// The state after the nonce of `who` is increased by one.
pub open spec fn charge_nonce(state: RuntimeState, who: Seq<char>) -> RuntimeState {
    RuntimeState {
        system: system::State {
            nonces: state.system.nonces.insert(
                who,
                (nonce_of(state.system.nonces, who) + 1) as Nonce,
            ),
            ..state.system
        },
        ..state
    }
}

/// The state after the block number is increased by one.
pub open spec fn advance_block(state: RuntimeState) -> RuntimeState {
    RuntimeState {
        system: system::State {
            block_number: (state.system.block_number + 1) as BlockNumber,
            ..state.system
        },
        ..state
    }
}

/// How many of `xs` are made by `who`.
pub open spec fn calls_from(xs: Seq<Extrinsic<AccountId, RuntimeCall>>, who: Seq<char>) -> nat
    decreases xs.len(),
{
    if xs.len() == 0 {
        0
    } else {
        calls_from(xs.drop_last(), who) + if xs.last().caller@ == who {
            1nat
        } else {
            0nat
        }
    }
}

/// The state after the extrinsics `xs` of block `number` run in order from
/// `state`, and the failures reported on the way. Each extrinsic first has
/// its caller's nonce increased, then its call dispatched; a failed call is
/// reported and the next extrinsic runs all the same.
pub open spec fn apply_extrinsics(
    state: RuntimeState,
    xs: Seq<Extrinsic<AccountId, RuntimeCall>>,
    number: BlockNumber,
) -> (RuntimeState, Seq<ExtrinsicFailure>)
    decreases xs.len(),
{
    if xs.len() == 0 {
        (state, Seq::empty())
    } else {
        let (before, failures) = apply_extrinsics(state, xs.drop_last(), number);
        let x = xs.last();
        let (after, r) = Runtime::spec_dispatch(charge_nonce(before, x.caller@), x.caller, x.call);
        match r {
            Ok(_) => (after, failures),
            Err(e) => (
                after,
                failures.push(
                    ExtrinsicFailure { block_number: number, index: (xs.len() - 1) as usize, error: e },
                ),
            ),
        }
    }
}

/// The main runtime: it holds every pallet of the state machine.
pub struct Runtime {
    pub system: system::Pallet,
    pub balances: balances::Pallet,
    pub proof_of_existence: proof_of_existence::Pallet,
}

impl View for Runtime {
    type V = RuntimeState;

    open spec fn view(&self) -> RuntimeState {
        RuntimeState {
            system: self.system@,
            balances: self.balances@,
            claims: self.proof_of_existence@,
        }
    }
}

impl Runtime {
    /// Every pallet is well formed.
    pub open spec fn wf(&self) -> bool {
        &&& self.system.wf()
        &&& self.balances.wf()
        &&& self.proof_of_existence.wf()
    }

    /// A new runtime, with a new instance of each pallet.
    pub fn new() -> (r: Self)
        ensures
            r.wf(),
            r@ == (RuntimeState {
                system: system::State { block_number: 0, nonces: Map::empty() },
                balances: Map::empty(),
                claims: Map::empty(),
            }),
    {
        Runtime {
            system: system::Pallet::new(),
            balances: balances::Pallet::new(),
            proof_of_existence: proof_of_existence::Pallet::new(),
        }
    }

    /// Whether `execute_block` may run `block` here without overflowing a
    /// counter: the block number must have room for one more, and the nonce
    /// of each caller for each of its extrinsics.
    pub fn can_execute_block(&self, block: &Block) -> (r: bool)
        requires
            self.wf(),
        ensures
            r == (self@.system.block_number < BlockNumber::MAX && forall|who: Seq<char>|
                nonce_of(self@.system.nonces, who) + #[trigger] calls_from(block.extrinsics@, who)
                    <= Nonce::MAX),
    {
        if self.system.block_number() == BlockNumber::MAX {
            return false;
        }
        let ghost xs = block.extrinsics@;
        let ghost nonces = self@.system.nonces;
        let n = block.extrinsics.len();
        let mut j: usize = 0;
        while j < n
            invariant
                self.wf(),
                xs == block.extrinsics@,
                nonces == self@.system.nonces,
                n == xs.len(),
                j <= n,
                forall|k: int|
                    0 <= k < j ==> nonce_of(nonces, #[trigger] xs[k].caller@) + calls_from(
                        xs,
                        xs[k].caller@,
                    ) <= Nonce::MAX,
            decreases n - j,
        {
            let caller = &block.extrinsics[j].caller;
            let mut count: usize = 0;
            let mut k: usize = 0;
            while k < n
                invariant
                    xs == block.extrinsics@,
                    n == xs.len(),
                    k <= n,
                    count == calls_from(xs.take(k as int), caller@),
                    count <= k,
                decreases n - k,
            {
                proof {
                    lemma_calls_from_prefix(xs, k + 1, caller@);
                }
                if block.extrinsics[k].caller == *caller {
                    count = count + 1;
                }
                k = k + 1;
            }
            proof {
                assert(xs.take(n as int) =~= xs);
            }
            let nonce: Nonce = match self.system.nonce(caller) {
                Some(v) => v,
                None => 0,
            };
            if nonce as u128 + count as u128 > Nonce::MAX as u128 {
                return false;
            }
            j = j + 1;
        }
        proof {
            assert forall|who: Seq<char>|
                nonce_of(nonces, who) + #[trigger] calls_from(xs, who) <= Nonce::MAX by {
                if calls_from(xs, who) > 0 {
                    lemma_caller_of_some_extrinsic(xs, who);
                }
            }
        }
        true
    }

    /// Executes a block. The block number advances first; a block that does not
    /// declare that number is refused whole, with the number left advanced.
    /// Otherwise every extrinsic runs, in order, and the calls that failed are
    /// returned.
    pub fn execute_block(&mut self, block: Block) -> (r: Result<
        Vec<ExtrinsicFailure>,
        DispatchError,
    >)
        requires
            old(self).wf(),
            old(self)@.system.block_number < BlockNumber::MAX,
            forall|who: Seq<char>|
                nonce_of(old(self)@.system.nonces, who) + #[trigger] calls_from(
                    block.extrinsics@,
                    who,
                ) <= Nonce::MAX,
        ensures
            final(self).wf(),
            block.header.block_number != advance_block(old(self)@).system.block_number ==> {
                &&& r == Err::<Vec<ExtrinsicFailure>, DispatchError>(
                    DispatchError::BlockNumberMismatch,
                )
                &&& final(self)@ == advance_block(old(self)@)
            },
            block.header.block_number == advance_block(old(self)@).system.block_number ==> {
                &&& r is Ok
                &&& (final(self)@, r->Ok_0@) == apply_extrinsics(
                    advance_block(old(self)@),
                    block.extrinsics@,
                    block.header.block_number,
                )
            },
    {
        self.system.inc_block_number();
        let number = block.header.block_number;
        if number != self.system.block_number() {
            return Err(DispatchError::BlockNumberMismatch);
        }
        let ghost start = self@;
        let ghost xs = block.extrinsics@;
        let n = block.extrinsics.len();
        let mut failures: Vec<ExtrinsicFailure> = Vec::new();
        let mut i: usize = 0;
        for x in it: block.extrinsics.into_iter()
            invariant
                self.wf(),
                it.seq() == xs,
                xs.len() == n,
                i == it.index(),
                forall|who: Seq<char>|
                    nonce_of(start.system.nonces, who) + #[trigger] calls_from(xs, who)
                        <= Nonce::MAX,
                (self@, failures@) == apply_extrinsics(start, xs.take(i as int), number),
        {
            let Extrinsic { caller, call } = x;
            proof {
                assert forall|a: Seq<char>|
                    nonce_of(start.system.nonces, a) + #[trigger] calls_from(xs.take(i as int), a)
                        <= Nonce::MAX by {
                    lemma_calls_from_prefix(xs, i as int, a);
                }
                assert(xs.take(i + 1).drop_last() =~= xs.take(i as int));
                lemma_calls_from_prefix(xs, i + 1, caller@);
                lemma_nonce_counts_extrinsics(start, xs.take(i as int), number, caller@);
            }
            self.system.inc_nonce(&caller);
            match self.dispatch(caller, call) {
                Ok(()) => {},
                Err(e) => {
                    failures.push(ExtrinsicFailure { block_number: number, index: i, error: e });
                },
            }
            i = i + 1;
        }
        assert(xs.take(xs.len() as int) =~= xs);
        Ok(failures)
    }
}

impl Dispatch for Runtime {
    type Caller = AccountId;

    type Call = RuntimeCall;

    open spec fn well_formed(&self) -> bool {
        self.wf()
    }

    open spec fn spec_dispatch(state: RuntimeState, caller: AccountId, call: RuntimeCall) -> (
        RuntimeState,
        DispatchResult,
    ) {
        match call {
            RuntimeCall::Balances(call) => {
                let (balances, r) = balances::Pallet::spec_dispatch(state.balances, caller, call);
                (RuntimeState { balances, ..state }, r)
            },
            RuntimeCall::ProofOfExistence(call) => {
                let (claims, r) = proof_of_existence::Pallet::spec_dispatch(
                    state.claims,
                    caller,
                    call,
                );
                (RuntimeState { claims, ..state }, r)
            },
        }
    }

    /// Routes the call to the pallet that it is tagged with, which routes it
    /// on to the function it names.
    fn dispatch(&mut self, caller: AccountId, runtime_call: RuntimeCall) -> (r: DispatchResult) {
        match runtime_call {
            RuntimeCall::Balances(call) => self.balances.dispatch(caller, call),
            RuntimeCall::ProofOfExistence(call) => self.proof_of_existence.dispatch(caller, call),
        }
    }
}

/// A prefix of `xs` holds no more extrinsics by `who` than `xs` itself.
proof fn lemma_calls_from_prefix(xs: Seq<Extrinsic<AccountId, RuntimeCall>>, n: int, who: Seq<char>)
    requires
        0 <= n <= xs.len(),
    ensures
        calls_from(xs.take(n), who) <= calls_from(xs, who),
        n > 0 ==> calls_from(xs.take(n), who) == calls_from(xs.take(n - 1), who) + if xs[n
            - 1].caller@ == who {
            1nat
        } else {
            0nat
        },
    decreases xs.len() - n,
{
    if n > 0 {
        assert(xs.take(n).drop_last() =~= xs.take(n - 1));
    }
    if n == xs.len() {
        assert(xs.take(n) =~= xs);
    } else {
        lemma_calls_from_prefix(xs, n + 1, who);
        assert(xs.take(n + 1).drop_last() =~= xs.take(n));
    }
}

/// An account that made some of `xs` is the caller of one of them.
proof fn lemma_caller_of_some_extrinsic(xs: Seq<Extrinsic<AccountId, RuntimeCall>>, who: Seq<char>)
    requires
        calls_from(xs, who) > 0,
    ensures
        exists|k: int| 0 <= k < xs.len() && #[trigger] xs[k].caller@ == who,
    decreases xs.len(),
{
    if xs.last().caller@ != who {
        lemma_caller_of_some_extrinsic(xs.drop_last(), who);
        let k = choose|k: int| 0 <= k < xs.len() - 1 && #[trigger] xs.drop_last()[k].caller@ == who;
        assert(xs[k].caller@ == who);
    } else {
        assert(xs[xs.len() - 1].caller@ == who);
    }
}

/// Running the extrinsics of a block increases the nonce of each account by
/// exactly the number of those extrinsics that it made, whether their calls
/// succeeded or failed, and leaves the block number as it was.
pub proof fn lemma_nonce_counts_extrinsics(
    state: RuntimeState,
    xs: Seq<Extrinsic<AccountId, RuntimeCall>>,
    number: BlockNumber,
    who: Seq<char>,
)
    requires
        forall|a: Seq<char>|
            nonce_of(state.system.nonces, a) + #[trigger] calls_from(xs, a) <= Nonce::MAX,
    ensures
        nonce_of(apply_extrinsics(state, xs, number).0.system.nonces, who) == nonce_of(
            state.system.nonces,
            who,
        ) + calls_from(xs, who),
        apply_extrinsics(state, xs, number).0.system.block_number == state.system.block_number,
    decreases xs.len(),
{
    if xs.len() > 0 {
        let prefix = xs.drop_last();
        let caller = xs.last().caller@;
        assert forall|a: Seq<char>|
            nonce_of(state.system.nonces, a) + #[trigger] calls_from(prefix, a)
                <= Nonce::MAX by {
            assert(calls_from(xs, a) >= calls_from(prefix, a));
        }
        lemma_nonce_counts_extrinsics(state, prefix, number, who);
        lemma_nonce_counts_extrinsics(state, prefix, number, caller);
    }
}

} // verus!
