//! What a caller knows of a market before it builds a request: the market's
//! accounts, its instances with their pages, and the accounts of a user.

use crate::error::RequestError;
use crate::pubkey::Pubkey;
use crate::schema::PositionType;
use vstd::prelude::*;

verus! {

/// Whether a trade opens or closes a position.
#[derive(Clone, Copy, Debug, PartialEq, Eq)]
pub enum CloseOrOpen {
    OpenPosition,
    ClosePosition,
}

/// One trading instance: its account, and the accounts that hold the pages
/// of its positions book, in the order of the book.
#[derive(Clone, Debug, PartialEq, Eq)]
pub struct InstanceContext {
    pub instance_account: Pubkey,
    pub memory_pages: Vec<Pubkey>,
}

/// A market: the program that runs it, its own accounts, and its instances.
#[derive(Clone, Debug, PartialEq, Eq)]
pub struct MarketContext {
    pub audaces_protocol_program_id: Pubkey,
    pub signer_nonce: u8,
    pub market_signer_account: Pubkey,
    pub oracle_account: Pubkey,
    pub market_account: Pubkey,
    pub admin_account: Pubkey,
    pub market_vault: Pubkey,
    pub bonfida_bnb: Pubkey,
    pub instances: Vec<InstanceContext>,
}

/// The account that earns its owner a fee discount.
#[derive(Clone, Copy, Debug, PartialEq, Eq)]
pub struct DiscountAccount {
    pub owner: Pubkey,
    pub address: Pubkey,
}

/// A user's position account: its owner, the instance it trades in, and its
/// side.
#[derive(Clone, Copy, Debug, PartialEq, Eq)]
pub struct PositionInfo {
    pub user_account: Pubkey,
    pub user_account_owner: Pubkey,
    pub instance_index: u8,
    pub side: PositionType,
}

impl MarketContext {
    /// Whether the market has an instance at `index`.
    pub open spec fn has_instance(&self, index: u8) -> bool {
        (index as int) < self.instances@.len()
    }

    /// The instance at `index`, for an index that names one.
    pub open spec fn instance_at(&self, index: u8) -> InstanceContext
        recommends
            self.has_instance(index),
    {
        self.instances@[index as int]
    }

    /// The instance at `index`, or `InvalidInstanceIndex` where the market
    /// has none there. Nothing is read beyond the list.
    pub fn instance(&self, index: u8) -> (found: Result<&InstanceContext, RequestError>)
        ensures
            found is Ok <==> self.has_instance(index),
            found matches Ok(instance) ==> *instance == self.instance_at(index),
            found matches Err(e) ==> e == RequestError::InvalidInstanceIndex,
    {
        let at = index as usize;
        if at < self.instances.len() {
            Ok(&self.instances[at])
        } else {
            Err(RequestError::InvalidInstanceIndex)
        }
    }
}

impl DiscountAccount {
    /// The discount account that an optional owner and an optional address
    /// make up: both, or neither.
    pub open spec fn paired(owner: Option<Pubkey>, address: Option<Pubkey>) -> Result<
        Option<DiscountAccount>,
        RequestError,
    > {
        match (owner, address) {
            (Some(owner), Some(address)) => Ok(Some(DiscountAccount { owner, address })),
            (None, None) => Ok(None),
            _ => Err(RequestError::MissingOptionalAccount),
        }
    }

    /// Pairs an optional owner with an optional address. One without the
    /// other is `MissingOptionalAccount`: a request never carries half of the
    /// pair.
    pub fn from_parts(owner: Option<Pubkey>, address: Option<Pubkey>) -> (account: Result<
        Option<DiscountAccount>,
        RequestError,
    >)
        ensures
            account == Self::paired(owner, address),
    {
        match (owner, address) {
            (Some(owner), Some(address)) => Ok(Some(DiscountAccount { owner, address })),
            (None, None) => Ok(None),
            _ => Err(RequestError::MissingOptionalAccount),
        }
    }
}

} // verus!
