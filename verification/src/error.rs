//! The ways in which an operation on the ledger fails.

use vstd::prelude::*;
use vstd::string::*;

verus! {

/// Why an operation was refused. A refused operation leaves the ledger as
/// it was.
#[derive(Clone, Copy, Debug, PartialEq, Eq, Structural)]
pub enum MarketError {
    /// An identifier is malformed: it is empty.
    InvalidIdentifier,
    /// The caller is not among those who may do this.
    AccessDenied,
    /// What the call refers to does not exist.
    NotFound,
    /// The item exists, but not in the store that the call names.
    Mismatch,
    /// The payment is below the item's price.
    InsufficientFunds,
    /// The buyer already owns the item.
    SelfPurchaseRejected,
    /// The ledger contradicts itself: an item is indexed without metadata,
    /// or a store has never had owners.
    InternalInconsistency,
}

/// What was asked of the ledger when it refused.
#[derive(Debug)]
pub enum Operation {
    CreateStore,
    AddStoreOwners,
    AddStoreItem,
    Buy,
    AddLog,
    AddFt,
    /// A lookup in the audit log, with the identifier that was looked up.
    GetLog { log_id: String },
}

impl MarketError {
    /// The description of a kind of failure.
    pub open spec fn text(self) -> Seq<char> {
        match self {
            MarketError::InvalidIdentifier => "StoreHub: invalid identifier"@,
            MarketError::AccessDenied => "StoreHub: access denied"@,
            MarketError::NotFound => "StoreHub: item doesn't exist"@,
            MarketError::Mismatch => "StoreHub: this item doesn't exist for this store"@,
            MarketError::InsufficientFunds => "StoreHub: deposit is below price"@,
            MarketError::SelfPurchaseRejected => "StoreHub: can't buy owned item"@,
            MarketError::InternalInconsistency => "StoreHub: internal contract error"@,
        }
    }

    /// A description of the failure for the caller.
    pub fn message(&self) -> (text: &'static str)
        ensures
            text@ == self.text(),
    {
        match self {
            MarketError::InvalidIdentifier => "StoreHub: invalid identifier",
            MarketError::AccessDenied => "StoreHub: access denied",
            MarketError::NotFound => "StoreHub: item doesn't exist",
            MarketError::Mismatch => "StoreHub: this item doesn't exist for this store",
            MarketError::InsufficientFunds => "StoreHub: deposit is below price",
            MarketError::SelfPurchaseRejected => "StoreHub: can't buy owned item",
            MarketError::InternalInconsistency => "StoreHub: internal contract error",
        }
    }
}

/// What the caller is told when `operation` is refused with `error`: that
/// the signer is no owner where adding an owner is denied, which log entry
/// is missing where a lookup in the log finds none, and else the
/// description of the kind of failure.
pub open spec fn refusal_text(operation: Operation, error: MarketError) -> Seq<char> {
    match operation {
        Operation::AddStoreOwners => if error == MarketError::AccessDenied {
            "StoreHub: signer not store owner"@
        } else {
            error.text()
        },
        Operation::GetLog { log_id } => if error == MarketError::NotFound {
            "No log found with id "@ + log_id@
        } else {
            error.text()
        },
        _ => error.text(),
    }
}

/// The message for the caller when `operation` is refused with `error`.
pub fn refusal_message(operation: &Operation, error: MarketError) -> (message: String)
    ensures
        message@ == refusal_text(*operation, error),
{
    match operation {
        Operation::AddStoreOwners => {
            if error == MarketError::AccessDenied {
                return String::from_str("StoreHub: signer not store owner");
            }
        },
        Operation::GetLog { log_id } => {
            if error == MarketError::NotFound {
                let mut message = String::from_str("No log found with id ");
                message.append(log_id.as_str());
                return message;
            }
        },
        _ => {},
    }
    String::from_str(error.message())
}

} // verus!
