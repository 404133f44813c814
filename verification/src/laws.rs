use vstd::prelude::*;

use crate::account::AccountRef;
use crate::context::{close_accounts_check, initialize_accounts_check, ClosePing};
use crate::dispatch::{spec_dispatch, Instruction};
use crate::error::PingError;
use crate::ops::{spec_close, spec_initialize};

verus! {

/// Destruction is final. Once `close` has run on a validated account set,
/// the record account no longer exists as a record, so any mutation
/// attempt — increment, decrement or set — handed to the dispatcher with
/// that same account reference is rejected with the "account does not
/// exist" error; by the dispatcher's contract the failed invocation then
/// leaves the account untouched.
pub proof fn lemma_mutation_after_close_fails(ctx: ClosePing, ix: Instruction)
    requires
        ctx.wf(),
        ix is Increment || ix is Decrement || ix is SetCount,
    ensures
        spec_close(ctx) matches Ok(after) ==> spec_dispatch(ix, seq![after.ping]) == Err::<
            Seq<AccountRef>,
            PingError,
        >(PingError::AccountNotFound),
{
}

/// The storage deposit makes a round trip. Creating a record and at once
/// destroying it, with the same payer, hands the record's whole reserved
/// balance back: the payer's balance ends exactly where it started, and the
/// record account ends deallocated and empty.
pub proof fn lemma_deposit_round_trip(payer: AccountRef, fresh: AccountRef, deposit: u64)
    requires
        fresh.wf(),
        initialize_accounts_check(payer, fresh) is Ok,
        deposit <= payer.lamports,
    ensures
        ({
            let ctx = initialize_accounts_check(payer, fresh)->Ok_0;
            let created = spec_initialize(ctx, deposit)->Ok_0;
            let closed = spec_close(close_accounts_check(created.payer, created.ping)->Ok_0)->Ok_0;
            &&& spec_initialize(ctx, deposit) is Ok
            &&& close_accounts_check(created.payer, created.ping) is Ok
            &&& closed.payer.lamports == payer.lamports
            &&& closed.ping.data is Absent
            &&& closed.ping.lamports == 0
        }),
{
}

} // verus!
