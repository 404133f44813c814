use vstd::prelude::*;

use crate::state::Ping;

verus! {

/// What an account's storage holds, as far as this program is concerned.
#[derive(Clone, Copy, Debug, PartialEq, Eq, Structural)]
pub enum AccountData {
    /// Nothing is allocated at this account.
    Absent,
    /// The account holds a record of this program, of the declared size and
    /// under this program's ownership.
    Record(Ping),
    /// The account is allocated, but with a size or an owner that does not
    /// match this program's record type.
    Foreign,
}

/// One caller-supplied account reference, as the host runtime hands it to an
/// invocation: a balance, the two per-transaction role flags, and whatever
/// the account's storage holds.
#[derive(Clone, Copy, Debug, PartialEq, Eq, Structural)]
pub struct AccountRef {
    /// The account's balance. For an allocated record this includes the
    /// storage deposit that came with its creation.
    pub lamports: u64,
    /// Whether the account's controlling party signed this invocation.
    pub is_signer: bool,
    /// Whether the transaction marked the account writable.
    pub is_writable: bool,
    /// What the account's storage holds.
    pub data: AccountData,
}

impl AccountRef {
    /// Well-formedness, as the host runtime maintains it: an account with no
    /// allocation carries no balance (deallocation sweeps the balance out).
    pub open spec fn wf(self) -> bool {
        self.data is Absent ==> self.lamports == 0
    }

    /// Whether the account currently exists as a record of this program.
    pub open spec fn holds_record(self) -> bool {
        self.data is Record
    }

    /// The record held, meaningful only when `holds_record()`.
    pub open spec fn record(self) -> Ping
        recommends
            self.holds_record(),
    {
        self.data->Record_0
    }

    /// The counter held, meaningful only when `holds_record()`.
    pub open spec fn count(self) -> u8
        recommends
            self.holds_record(),
    {
        self.record().count
    }
}

} // verus!
