use vstd::prelude::*;

use crate::account::{AccountData, AccountRef};
use crate::context::{ClosePing, InitializePing, Update};
use crate::error::PingError;
use crate::state::Ping;

verus! {

/// What the creation operation does to a validated account set: debit the
/// payer by the storage deposit, and let the target account come to hold a
/// fresh record, carrying the deposit as its reserved balance.
pub open spec fn spec_initialize(ctx: InitializePing, deposit: u64) -> Result<
    InitializePing,
    PingError,
>
    recommends
        ctx.wf(),
        ctx.ping.wf(),
{
    if ctx.payer.lamports < deposit {
        Err(PingError::InsufficientFunds)
    } else {
        Ok(
            InitializePing {
                payer: AccountRef { lamports: (ctx.payer.lamports - deposit) as u64, ..ctx.payer },
                ping: AccountRef {
                    lamports: deposit,
                    data: AccountData::Record(Ping::spec_default()),
                    ..ctx.ping
                },
            },
        )
    }
}

/// What `increment` does to a validated record: one more, or a hard overflow
/// failure at the counter's maximum.
pub open spec fn spec_increment(ctx: Update) -> Result<Update, PingError>
    recommends
        ctx.wf(),
{
    if ctx.ping.count() == 255 {
        Err(PingError::Overflow)
    } else {
        Ok(
            Update {
                ping: AccountRef {
                    data: AccountData::Record(Ping { count: (ctx.ping.count() + 1) as u8 }),
                    ..ctx.ping
                },
            },
        )
    }
}

/// What `decrement` does to a validated record: one less, or a hard
/// underflow failure at zero.
pub open spec fn spec_decrement(ctx: Update) -> Result<Update, PingError>
    recommends
        ctx.wf(),
{
    if ctx.ping.count() == 0 {
        Err(PingError::Underflow)
    } else {
        Ok(
            Update {
                ping: AccountRef {
                    data: AccountData::Record(Ping { count: (ctx.ping.count() - 1) as u8 }),
                    ..ctx.ping
                },
            },
        )
    }
}

/// What `set` does to a validated record: the counter becomes the supplied
/// value, whatever it held before. It never fails.
pub open spec fn spec_set_count(ctx: Update, value: u8) -> Result<Update, PingError>
    recommends
        ctx.wf(),
{
    Ok(Update { ping: AccountRef { data: AccountData::Record(Ping { count: value }), ..ctx.ping } })
}

/// What `close` does to a validated account set: the record's entire
/// reserved balance moves to the payer, and the record's storage is
/// deallocated, so the account no longer exists as a record.
pub open spec fn spec_close(ctx: ClosePing) -> Result<ClosePing, PingError>
    recommends
        ctx.wf(),
        ctx.payer.lamports + ctx.ping.lamports <= u64::MAX,
{
    Ok(
        ClosePing {
            payer: AccountRef {
                lamports: (ctx.payer.lamports + ctx.ping.lamports) as u64,
                ..ctx.payer
            },
            ping: AccountRef { lamports: 0, data: AccountData::Absent, ..ctx.ping },
        },
    )
}

/// Creation operation. Debits the payer by `deposit`, allocates the target
/// as a record of this program and initializes its counter to the default,
/// zero. Fails exactly when the payer cannot cover the deposit, and a failed
/// call changes nothing.
pub fn initialize(ctx: &mut InitializePing, deposit: u64) -> (r: Result<(), PingError>)
    requires
        old(ctx).wf(),
        old(ctx).payer.wf(),
        old(ctx).ping.wf(),
    ensures
        r is Ok <==> deposit <= old(ctx).payer.lamports,
        (match spec_initialize(*old(ctx), deposit) {
            Ok(c) => r is Ok && *final(ctx) == c,
            Err(e) => r == Err::<(), PingError>(e) && *final(ctx) == *old(ctx),
        }),
        r is Ok ==> final(ctx).ping.holds_record() && final(ctx).ping.count() == 0,
        r is Ok ==> final(ctx).ping.lamports == deposit && final(ctx).payer.lamports + deposit
            == old(ctx).payer.lamports,
        final(ctx).payer.wf(),
        final(ctx).ping.wf(),
{
    if ctx.payer.lamports < deposit {
        Err(PingError::InsufficientFunds)
    } else {
        ctx.payer.lamports = ctx.payer.lamports - deposit;
        ctx.ping.lamports = deposit;
        ctx.ping.data = AccountData::Record(Ping { count: 0 });
        Ok(())
    }
}

/// Mutation operation: `count += 1`. Fails exactly when the counter already
/// stands at its maximum, 255 — overflow is a hard error, not wraparound —
/// and a failed call changes nothing.
pub fn increment(ctx: &mut Update) -> (r: Result<(), PingError>)
    requires
        old(ctx).wf(),
    ensures
        final(ctx).wf(),
        r is Ok <==> old(ctx).ping.count() < 255,
        (match spec_increment(*old(ctx)) {
            Ok(c) => r is Ok && *final(ctx) == c,
            Err(e) => r == Err::<(), PingError>(e) && *final(ctx) == *old(ctx),
        }),
        r is Ok ==> final(ctx).ping.count() == old(ctx).ping.count() + 1,
        final(ctx).ping.lamports == old(ctx).ping.lamports,
{
    match ctx.ping.data {
        AccountData::Record(p) => {
            if p.count == 255 {
                Err(PingError::Overflow)
            } else {
                ctx.ping.data = AccountData::Record(Ping { count: p.count + 1 });
                Ok(())
            }
        },
        // Unreachable: the account contract established that a record exists.
        _ => Err(PingError::AccountNotFound),
    }
}

/// Mutation operation: `count -= 1`. Fails exactly when the counter already
/// stands at zero — underflow is a hard error, not wraparound — and a failed
/// call changes nothing.
pub fn decrement(ctx: &mut Update) -> (r: Result<(), PingError>)
    requires
        old(ctx).wf(),
    ensures
        final(ctx).wf(),
        r is Ok <==> old(ctx).ping.count() > 0,
        (match spec_decrement(*old(ctx)) {
            Ok(c) => r is Ok && *final(ctx) == c,
            Err(e) => r == Err::<(), PingError>(e) && *final(ctx) == *old(ctx),
        }),
        r is Ok ==> final(ctx).ping.count() == old(ctx).ping.count() - 1,
        final(ctx).ping.lamports == old(ctx).ping.lamports,
{
    match ctx.ping.data {
        AccountData::Record(p) => {
            if p.count == 0 {
                Err(PingError::Underflow)
            } else {
                ctx.ping.data = AccountData::Record(Ping { count: p.count - 1 });
                Ok(())
            }
        },
        // Unreachable: the account contract established that a record exists.
        _ => Err(PingError::AccountNotFound),
    }
}

/// Mutation operation: `count = value`. Always succeeds — the input is
/// already constrained to the counter's range by its type — and touches
/// nothing but the counter.
pub fn set(ctx: &mut Update, value: u8) -> (r: Result<(), PingError>)
    requires
        old(ctx).wf(),
    ensures
        final(ctx).wf(),
        r is Ok,
        (match spec_set_count(*old(ctx), value) {
            Ok(c) => *final(ctx) == c,
            Err(e) => false,
        }),
        final(ctx).ping.count() == value,
        final(ctx).ping.lamports == old(ctx).ping.lamports,
{
    ctx.ping.data = AccountData::Record(Ping { count: value });
    Ok(())
}

/// Destruction operation. The record's entire reserved balance — storage
/// deposit included — is transferred to the payer, and the record's storage
/// is deallocated: the account thereafter no longer exists as a record of
/// this program. The balance bound is a machine limit the host runtime
/// guarantees, the total currency supply being far below it.
pub fn close(ctx: &mut ClosePing) -> (r: Result<(), PingError>)
    requires
        old(ctx).wf(),
        old(ctx).payer.lamports + old(ctx).ping.lamports <= u64::MAX,
    ensures
        r is Ok,
        (match spec_close(*old(ctx)) {
            Ok(c) => *final(ctx) == c,
            Err(e) => false,
        }),
        final(ctx).payer.lamports == old(ctx).payer.lamports + old(ctx).ping.lamports,
        final(ctx).ping.lamports == 0,
        final(ctx).ping.data is Absent,
        final(ctx).ping.wf(),
{
    ctx.payer.lamports = ctx.payer.lamports + ctx.ping.lamports;
    ctx.ping.lamports = 0;
    ctx.ping.data = AccountData::Absent;
    Ok(())
}

} // verus!
