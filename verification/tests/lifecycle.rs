use ping::account::{AccountData, AccountRef};
use ping::dispatch::{dispatch, Instruction};
use ping::error::PingError;
use ping::state::{Ping, COUNT_SPACE, PING_SPACE, RECORD_HEADER_SPACE};

fn wallet(lamports: u64) -> AccountRef {
    AccountRef {
        lamports,
        is_signer: true,
        is_writable: true,
        data: AccountData::Foreign,
    }
}

fn fresh() -> AccountRef {
    AccountRef {
        lamports: 0,
        is_signer: false,
        is_writable: true,
        data: AccountData::Absent,
    }
}

fn count_of(a: &AccountRef) -> u8 {
    match a.data {
        AccountData::Record(p) => p.count,
        _ => panic!("account does not hold a record"),
    }
}

#[test]
fn declared_record_size() {
    assert_eq!(RECORD_HEADER_SPACE, 8);
    assert_eq!(COUNT_SPACE, 1);
    assert_eq!(PING_SPACE, 9);
}

#[test]
fn full_lifecycle_trace() {
    // initialize -> set(200) -> increment -> increment -> close.
    let deposit: u64 = 890;
    let payer_start: u64 = 1_000;

    let mut accounts = vec![wallet(payer_start), fresh()];
    assert_eq!(
        dispatch(Instruction::Initialize { deposit }, &mut accounts),
        Ok(())
    );
    assert_eq!(count_of(&accounts[1]), 0);
    assert_eq!(accounts[0].lamports, payer_start - deposit);
    assert_eq!(accounts[1].lamports, deposit);

    let mut record = vec![accounts[1]];
    assert_eq!(
        dispatch(Instruction::SetCount { value: 200 }, &mut record),
        Ok(())
    );
    assert_eq!(count_of(&record[0]), 200);

    assert_eq!(dispatch(Instruction::Increment, &mut record), Ok(()));
    assert_eq!(count_of(&record[0]), 201);

    assert_eq!(dispatch(Instruction::Increment, &mut record), Ok(()));
    assert_eq!(count_of(&record[0]), 202);

    let mut closing = vec![accounts[0], record[0]];
    assert_eq!(dispatch(Instruction::Close, &mut closing), Ok(()));
    // The record is removed and the deposit is back with the payer.
    assert_eq!(closing[1].data, AccountData::Absent);
    assert_eq!(closing[1].lamports, 0);
    assert_eq!(closing[0].lamports, payer_start);
}

#[test]
fn decrement_of_a_fresh_record_fails() {
    // initialize -> decrement, starting at the default count of zero.
    let mut accounts = vec![wallet(100), fresh()];
    assert_eq!(
        dispatch(Instruction::Initialize { deposit: 90 }, &mut accounts),
        Ok(())
    );
    assert_eq!(count_of(&accounts[1]), 0);

    let mut record = vec![accounts[1]];
    let before = record.clone();
    assert_eq!(
        dispatch(Instruction::Decrement, &mut record),
        Err(PingError::Underflow)
    );
    // The failed invocation wrote nothing.
    assert_eq!(record, before);
    assert_eq!(count_of(&record[0]), 0);
}

#[test]
fn mutation_after_close_finds_no_record() {
    let mut accounts = vec![wallet(50), fresh()];
    assert_eq!(
        dispatch(Instruction::Initialize { deposit: 40 }, &mut accounts),
        Ok(())
    );
    let mut closing = vec![accounts[0], accounts[1]];
    assert_eq!(dispatch(Instruction::Close, &mut closing), Ok(()));

    // Every mutation attempt on the closed account reference is rejected
    // with the "account does not exist" error and changes nothing.
    let closed = closing[1];
    for ix in [
        Instruction::Increment,
        Instruction::Decrement,
        Instruction::SetCount { value: 3 },
    ] {
        let mut record = vec![closed];
        assert_eq!(dispatch(ix, &mut record), Err(PingError::AccountNotFound));
        assert_eq!(record[0], closed);
    }
}

#[test]
fn dispatch_rejects_a_wrong_account_count() {
    let mut none: Vec<AccountRef> = vec![];
    assert_eq!(
        dispatch(Instruction::Increment, &mut none),
        Err(PingError::WrongAccountCount)
    );

    let mut too_many = vec![wallet(10), fresh(), fresh()];
    assert_eq!(
        dispatch(Instruction::Initialize { deposit: 1 }, &mut too_many),
        Err(PingError::WrongAccountCount)
    );

    let mut one = vec![wallet(10)];
    assert_eq!(
        dispatch(Instruction::Close, &mut one),
        Err(PingError::WrongAccountCount)
    );
}

#[test]
fn failed_validation_leaves_accounts_untouched() {
    // Unsigned payer: the creation is rejected before any byte moves.
    let mut payer = wallet(500);
    payer.is_signer = false;
    let mut accounts = vec![payer, fresh()];
    let before = accounts.clone();
    assert_eq!(
        dispatch(Instruction::Initialize { deposit: 10 }, &mut accounts),
        Err(PingError::MissingSigner)
    );
    assert_eq!(accounts, before);
}

#[test]
fn set_spans_the_whole_range() {
    for value in [0u8, 1, 127, 254, 255] {
        let mut record = vec![AccountRef {
            lamports: 9,
            is_signer: false,
            is_writable: true,
            data: AccountData::Record(Ping { count: 42 }),
        }];
        assert_eq!(
            dispatch(Instruction::SetCount { value }, &mut record),
            Ok(())
        );
        assert_eq!(count_of(&record[0]), value);
    }
}
