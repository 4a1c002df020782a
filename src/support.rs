//! The primitives that every pallet and the runtime share: blocks, extrinsics,
//! dispatch errors and the `Dispatch` abstraction.
use vstd::prelude::*;

verus! {

/// The most primitive representation of a block.
pub struct Block<Header, Extrinsic> {
    /// Metadata about the block.
    pub header: Header,
    /// The state transitions to execute, in order.
    pub extrinsics: Vec<Extrinsic>,
}

/// A simplified header that only holds the number of its block.
pub struct Header<BlockNumber> {
    pub block_number: BlockNumber,
}

/// An external message: who makes the call, and which call they make.
pub struct Extrinsic<Caller, Call> {
    pub caller: Caller,
    pub call: Call,
}

/// Why a dispatched call or a block was refused.
#[derive(Clone, Copy, Debug, PartialEq, Eq, Structural)]
pub enum DispatchError {
    /// The caller's balance is below the amount to move.
    InsufficientFunds,
    /// The receiver's balance would exceed what a balance can hold.
    Overflow,
    /// The content already has an owner.
    AlreadyClaimed,
    /// The content has no owner.
    NoSuchClaim,
    /// The content is owned by another account.
    NotClaimOwner,
    /// A block's declared number is not the one that comes next.
    BlockNumberMismatch,
}

impl DispatchError {
    /// The human-readable message of this error.
    pub open spec fn spec_message(self) -> Seq<char> {
        match self {
            DispatchError::InsufficientFunds => "Not enough funds."@,
            DispatchError::Overflow => "Overflow"@,
            DispatchError::AlreadyClaimed => "This content is already claimed."@,
            DispatchError::NoSuchClaim => "Claim does not exist."@,
            DispatchError::NotClaimOwner => "This content is owned by someone else."@,
            DispatchError::BlockNumberMismatch => "block number does not match what is expected"@,
        }
    }

    /// The human-readable message of this error.
    pub fn message(&self) -> (r: &'static str)
        ensures
            r@ == self.spec_message(),
    {
        match self {
            DispatchError::InsufficientFunds => "Not enough funds.",
            DispatchError::Overflow => "Overflow",
            DispatchError::AlreadyClaimed => "This content is already claimed.",
            DispatchError::NoSuchClaim => "Claim does not exist.",
            DispatchError::NotClaimOwner => "This content is owned by someone else.",
            DispatchError::BlockNumberMismatch => "block number does not match what is expected",
        }
    }
}

/// The result of a dispatched call: nothing on success, else why it failed.
pub type DispatchResult = Result<(), DispatchError>;

/// Routes a call, made on behalf of a caller, to the state transition it names.
///
/// The state that an implementor owns is described by its view; `spec_dispatch`
/// gives the new state and the result of each call from each state.
pub trait Dispatch: View + Sized {
    /// Who makes the call.
    type Caller;
    /// The calls this implementor accepts.
    type Call;

    /// The internal invariant of the implementor.
    spec fn well_formed(&self) -> bool;

    /// The state after dispatching `call` for `caller` from `state`, and its result.
    spec fn spec_dispatch(state: Self::V, caller: Self::Caller, call: Self::Call) -> (
        Self::V,
        DispatchResult,
    );

    /// Performs `call` on behalf of `caller`.
    fn dispatch(&mut self, caller: Self::Caller, call: Self::Call) -> (r: DispatchResult)
        requires
            old(self).well_formed(),
        ensures
            final(self).well_formed(),
            (final(self)@, r) == Self::spec_dispatch(old(self)@, caller, call),
    ;
}

} // verus!
