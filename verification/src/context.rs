use vstd::prelude::*;

use crate::account::{AccountData, AccountRef};
use crate::error::PingError;

verus! {

/// The validated account set of the creation operation: a payer that signs
/// and funds the storage deposit, and the account the new record will occupy.
#[derive(Clone, Copy, Debug, PartialEq, Eq, Structural)]
pub struct InitializePing {
    /// Debited for the storage deposit. Must sign and be writable.
    pub payer: AccountRef,
    /// The account to allocate. Must be writable and not yet exist.
    pub ping: AccountRef,
}

/// The validated account set of the destruction operation: the record to
/// deallocate and the payer that receives its reserved balance.
#[derive(Clone, Copy, Debug, PartialEq, Eq, Structural)]
pub struct ClosePing {
    /// Credited with the record's whole balance. Must be writable.
    pub payer: AccountRef,
    /// The record to destroy. Must be writable and exist as a record.
    pub ping: AccountRef,
}

/// The validated account set of the three mutation operations: one existing,
/// writable record.
#[derive(Clone, Copy, Debug, PartialEq, Eq, Structural)]
pub struct Update {
    /// The record to mutate. Must be writable and exist as a record.
    pub ping: AccountRef,
}

/// The account contract of `initialize`, checked before the handler runs:
/// payer signs and is writable, target is writable and does not yet exist.
pub open spec fn initialize_accounts_check(payer: AccountRef, ping: AccountRef) -> Result<
    InitializePing,
    PingError,
> {
    if !payer.is_signer {
        Err(PingError::MissingSigner)
    } else if !payer.is_writable || !ping.is_writable {
        Err(PingError::NotWritable)
    } else if !(ping.data is Absent) {
        Err(PingError::AccountAlreadyInUse)
    } else {
        Ok(InitializePing { payer, ping })
    }
}

/// The account contract of `close`, checked before the handler runs: both
/// accounts writable, and the target existing as a record of this program.
pub open spec fn close_accounts_check(payer: AccountRef, ping: AccountRef) -> Result<
    ClosePing,
    PingError,
> {
    if !payer.is_writable || !ping.is_writable {
        Err(PingError::NotWritable)
    } else if ping.data is Absent {
        Err(PingError::AccountNotFound)
    } else if ping.data is Foreign {
        Err(PingError::WrongOwner)
    } else {
        Ok(ClosePing { payer, ping })
    }
}

/// The account contract of the mutation operations, checked before a handler
/// runs: the one account writable and existing as a record of this program.
pub open spec fn update_accounts_check(ping: AccountRef) -> Result<Update, PingError> {
    if !ping.is_writable {
        Err(PingError::NotWritable)
    } else if ping.data is Absent {
        Err(PingError::AccountNotFound)
    } else if ping.data is Foreign {
        Err(PingError::WrongOwner)
    } else {
        Ok(Update { ping })
    }
}

impl InitializePing {
    /// A validated creation account set: constraints the check established.
    pub open spec fn wf(self) -> bool {
        &&& self.payer.is_signer
        &&& self.payer.is_writable
        &&& self.ping.is_writable
        &&& self.ping.data is Absent
    }

    /// Validates the raw account pair against the creation account contract.
    pub fn try_accounts(payer: AccountRef, ping: AccountRef) -> (r: Result<
        InitializePing,
        PingError,
    >)
        ensures
            r == initialize_accounts_check(payer, ping),
            r matches Ok(ctx) ==> ctx.wf(),
    {
        if !payer.is_signer {
            Err(PingError::MissingSigner)
        } else if !payer.is_writable || !ping.is_writable {
            Err(PingError::NotWritable)
        } else if !matches!(ping.data, AccountData::Absent) {
            Err(PingError::AccountAlreadyInUse)
        } else {
            Ok(InitializePing { payer, ping })
        }
    }
}

impl ClosePing {
    /// A validated destruction account set: constraints the check established.
    pub open spec fn wf(self) -> bool {
        &&& self.payer.is_writable
        &&& self.ping.is_writable
        &&& self.ping.data is Record
    }

    /// Validates the raw account pair against the destruction account
    /// contract.
    pub fn try_accounts(payer: AccountRef, ping: AccountRef) -> (r: Result<ClosePing, PingError>)
        ensures
            r == close_accounts_check(payer, ping),
            r matches Ok(ctx) ==> ctx.wf(),
    {
        if !payer.is_writable || !ping.is_writable {
            Err(PingError::NotWritable)
        } else if matches!(ping.data, AccountData::Absent) {
            Err(PingError::AccountNotFound)
        } else if matches!(ping.data, AccountData::Foreign) {
            Err(PingError::WrongOwner)
        } else {
            Ok(ClosePing { payer, ping })
        }
    }
}

impl Update {
    /// A validated mutation account set: constraints the check established.
    pub open spec fn wf(self) -> bool {
        &&& self.ping.is_writable
        &&& self.ping.data is Record
    }

    /// Validates the raw account against the mutation account contract.
    pub fn try_accounts(ping: AccountRef) -> (r: Result<Update, PingError>)
        ensures
            r == update_accounts_check(ping),
            r matches Ok(ctx) ==> ctx.wf(),
    {
        if !ping.is_writable {
            Err(PingError::NotWritable)
        } else if matches!(ping.data, AccountData::Absent) {
            Err(PingError::AccountNotFound)
        } else if matches!(ping.data, AccountData::Foreign) {
            Err(PingError::WrongOwner)
        } else {
            Ok(Update { ping })
        }
    }
}

} // verus!
