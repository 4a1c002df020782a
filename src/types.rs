//! The concrete types that the pallets of this state machine are built on.
use vstd::prelude::*;

use crate::runtime::RuntimeCall;
use crate::support;

verus! {

/// Identifies an account.
pub type AccountId = String;

/// The balance of an account.
pub type Balance = u128;

/// The number of a block.
pub type BlockNumber = u32;

/// How many extrinsics an account has submitted.
pub type Nonce = u32;

/// The content that an account may claim.
pub type Content = String;

/// An extrinsic of this runtime.
pub type Extrinsic = support::Extrinsic<AccountId, RuntimeCall>;

/// A header of this runtime.
pub type Header = support::Header<BlockNumber>;

/// A block of this runtime.
pub type Block = support::Block<Header, Extrinsic>;

} // verus!
