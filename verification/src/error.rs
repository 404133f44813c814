use vstd::prelude::*;

verus! {

/// Why an invocation was rejected.
///
/// The first seven variants are authorization / account-contract failures,
/// raised at the dispatch boundary before a handler runs. `Overflow` and
/// `Underflow` are the arithmetic failures of the mutation handlers, kept
/// distinguishable from the authorization kinds. Whatever the kind, the host
/// runtime discards every account change of the failed invocation.
#[derive(Clone, Copy, Debug, PartialEq, Eq, Structural)]
pub enum PingError {
    /// The payer did not sign the current invocation.
    MissingSigner,
    /// An account the operation must mutate was not marked writable.
    NotWritable,
    /// The account does not exist as a record of this program.
    AccountNotFound,
    /// The target of a creation already exists, so it cannot be allocated.
    AccountAlreadyInUse,
    /// The account is allocated but owned by another program.
    WrongOwner,
    /// The payer's balance cannot cover the storage deposit.
    InsufficientFunds,
    /// The instruction came with the wrong number of accounts.
    WrongAccountCount,
    /// Incrementing would take the counter above its maximum, 255.
    Overflow,
    /// Decrementing would take the counter below zero.
    Underflow,
}

impl PingError {
    /// A short human-readable name for the error kind.
    pub fn describe(&self) -> &'static str {
        match self {
            PingError::MissingSigner => "payer is not a signer",
            PingError::NotWritable => "account is not writable",
            PingError::AccountNotFound => "account does not exist",
            PingError::AccountAlreadyInUse => "account already in use",
            PingError::WrongOwner => "account owned by another program",
            PingError::InsufficientFunds => "insufficient funds for deposit",
            PingError::WrongAccountCount => "wrong number of accounts",
            PingError::Overflow => "counter overflow",
            PingError::Underflow => "counter underflow",
        }
    }
}

} // verus!
