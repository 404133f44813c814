use vstd::prelude::*;

use crate::account::AccountRef;
use crate::context::{
    close_accounts_check, initialize_accounts_check, update_accounts_check, ClosePing,
    InitializePing, Update,
};
use crate::error::PingError;
use crate::ops::{
    close, decrement, increment, initialize, spec_close, spec_decrement, spec_increment,
    spec_initialize, spec_set_count,
};

verus! {

/// The operation selector the host runtime hands to an invocation, with the
/// operation's own arguments: the storage deposit the runtime charges for a
/// creation, and the value a `SetCount` writes.
#[derive(Clone, Copy, Debug, PartialEq, Eq, Structural)]
pub enum Instruction {
    /// Create a record: accounts `[payer, target]`.
    Initialize { deposit: u64 },
    /// `count += 1`: accounts `[record]`.
    Increment,
    /// `count -= 1`: accounts `[record]`.
    Decrement,
    /// `count = value`: accounts `[record]`.
    SetCount { value: u8 },
    /// Destroy a record: accounts `[payer, record]`.
    Close,
}

/// The whole outcome of one invocation: the account list as the host runtime
/// would commit it, or the error that aborts the invocation with every
/// account unchanged. Each arm first checks the account count, then the
/// operation's declared account contract, and only then runs the handler.
pub open spec fn spec_dispatch(ix: Instruction, accounts: Seq<AccountRef>) -> Result<
    Seq<AccountRef>,
    PingError,
>
    recommends
        forall|i: int| 0 <= i < accounts.len() ==> accounts[i].wf(),
{
    match ix {
        Instruction::Initialize { deposit } => {
            if accounts.len() != 2 {
                Err(PingError::WrongAccountCount)
            } else {
                match initialize_accounts_check(accounts[0], accounts[1]) {
                    Err(e) => Err(e),
                    Ok(ctx) => match spec_initialize(ctx, deposit) {
                        Err(e) => Err(e),
                        Ok(c) => Ok(seq![c.payer, c.ping]),
                    },
                }
            }
        },
        Instruction::Increment => {
            if accounts.len() != 1 {
                Err(PingError::WrongAccountCount)
            } else {
                match update_accounts_check(accounts[0]) {
                    Err(e) => Err(e),
                    Ok(ctx) => match spec_increment(ctx) {
                        Err(e) => Err(e),
                        Ok(c) => Ok(seq![c.ping]),
                    },
                }
            }
        },
        Instruction::Decrement => {
            if accounts.len() != 1 {
                Err(PingError::WrongAccountCount)
            } else {
                match update_accounts_check(accounts[0]) {
                    Err(e) => Err(e),
                    Ok(ctx) => match spec_decrement(ctx) {
                        Err(e) => Err(e),
                        Ok(c) => Ok(seq![c.ping]),
                    },
                }
            }
        },
        Instruction::SetCount { value } => {
            if accounts.len() != 1 {
                Err(PingError::WrongAccountCount)
            } else {
                match update_accounts_check(accounts[0]) {
                    Err(e) => Err(e),
                    Ok(ctx) => match spec_set_count(ctx, value) {
                        Err(e) => Err(e),
                        Ok(c) => Ok(seq![c.ping]),
                    },
                }
            }
        },
        Instruction::Close => {
            if accounts.len() != 2 {
                Err(PingError::WrongAccountCount)
            } else {
                match close_accounts_check(accounts[0], accounts[1]) {
                    Err(e) => Err(e),
                    Ok(ctx) => match spec_close(ctx) {
                        Err(e) => Err(e),
                        Ok(c) => Ok(seq![c.payer, c.ping]),
                    },
                }
            }
        },
    }
}

/// The entry boundary. Resolves the account set the selector requires,
/// validates it against the operation's declared account contract, and only
/// on success routes to the handler. Exactly the outcome of
/// [`spec_dispatch`] happens: on success the account list holds the
/// committed states, on any failure it is untouched — the invocation aborts
/// atomically, as the host runtime demands.
///
/// The balance bound for `Close` is a machine limit the host runtime
/// guarantees, the total currency supply being far below it.
pub fn dispatch(ix: Instruction, accounts: &mut Vec<AccountRef>) -> (r: Result<(), PingError>)
    requires
        forall|i: int| 0 <= i < old(accounts)@.len() ==> old(accounts)@[i].wf(),
        ix is Close && old(accounts)@.len() == 2 ==> old(accounts)@[0].lamports + old(
            accounts,
        )@[1].lamports <= u64::MAX,
    ensures
        (match spec_dispatch(ix, old(accounts)@) {
            Ok(s) => r is Ok && final(accounts)@ == s,
            Err(e) => r == Err::<(), PingError>(e) && final(accounts)@ == old(accounts)@,
        }),
        final(accounts)@.len() == old(accounts)@.len(),
{
    match ix {
        Instruction::Initialize { deposit } => {
            if accounts.len() != 2 {
                return Err(PingError::WrongAccountCount);
            }
            let payer = accounts[0];
            let ping = accounts[1];
            let mut ctx = match InitializePing::try_accounts(payer, ping) {
                Ok(c) => c,
                Err(e) => {
                    return Err(e);
                },
            };
            match initialize(&mut ctx, deposit) {
                Ok(u) => {
                    accounts.set(0, ctx.payer);
                    accounts.set(1, ctx.ping);
                    proof {
                        assert(accounts@ =~= seq![ctx.payer, ctx.ping]);
                    }
                    Ok(u)
                },
                Err(e) => Err(e),
            }
        },
        Instruction::Increment => {
            if accounts.len() != 1 {
                return Err(PingError::WrongAccountCount);
            }
            let ping = accounts[0];
            let mut ctx = match Update::try_accounts(ping) {
                Ok(c) => c,
                Err(e) => {
                    return Err(e);
                },
            };
            match increment(&mut ctx) {
                Ok(u) => {
                    accounts.set(0, ctx.ping);
                    proof {
                        assert(accounts@ =~= seq![ctx.ping]);
                    }
                    Ok(u)
                },
                Err(e) => Err(e),
            }
        },
        Instruction::Decrement => {
            if accounts.len() != 1 {
                return Err(PingError::WrongAccountCount);
            }
            let ping = accounts[0];
            let mut ctx = match Update::try_accounts(ping) {
                Ok(c) => c,
                Err(e) => {
                    return Err(e);
                },
            };
            match decrement(&mut ctx) {
                Ok(u) => {
                    accounts.set(0, ctx.ping);
                    proof {
                        assert(accounts@ =~= seq![ctx.ping]);
                    }
                    Ok(u)
                },
                Err(e) => Err(e),
            }
        },
        Instruction::SetCount { value } => {
            if accounts.len() != 1 {
                return Err(PingError::WrongAccountCount);
            }
            let ping = accounts[0];
            let mut ctx = match Update::try_accounts(ping) {
                Ok(c) => c,
                Err(e) => {
                    return Err(e);
                },
            };
            match crate::ops::set(&mut ctx, value) {
                Ok(u) => {
                    accounts.set(0, ctx.ping);
                    proof {
                        assert(accounts@ =~= seq![ctx.ping]);
                    }
                    Ok(u)
                },
                Err(e) => Err(e),
            }
        },
        Instruction::Close => {
            if accounts.len() != 2 {
                return Err(PingError::WrongAccountCount);
            }
            let payer = accounts[0];
            let ping = accounts[1];
            let mut ctx = match ClosePing::try_accounts(payer, ping) {
                Ok(c) => c,
                Err(e) => {
                    return Err(e);
                },
            };
            match close(&mut ctx) {
                Ok(u) => {
                    accounts.set(0, ctx.payer);
                    accounts.set(1, ctx.ping);
                    proof {
                        assert(accounts@ =~= seq![ctx.payer, ctx.ping]);
                    }
                    Ok(u)
                },
                Err(e) => Err(e),
            }
        },
    }
}

} // verus!
