use vstd::prelude::*;
use crate::error_code::ErrorCode;
use crate::syscall::{cmd, Command, Expect, Outcome, Share, Transaction, Wait};

verus! {

pub const DRIVER_NUM: u32 = 0x50003;

pub const DRIVER_CHECK: u32 = 0;
pub const GET: u32 = 1;
pub const SET: u32 = 2;
pub const DELETE: u32 = 3;
pub const ADD: u32 = 4;
pub const UPDATE: u32 = 5;

pub const SUBSCRIBE_CALLBACK: u32 = 0;
pub const ALLOW_RO_KEY: u32 = 0;
pub const ALLOW_RO_VALUE_WRITE: u32 = 1;
pub const ALLOW_RW_VALUE_READ: u32 = 0;

/// System call configuration for `KeyValue`.
pub trait Config: crate::config::Config {}

impl<T: crate::config::Config> Config for T {}

/// The result that the callback of a key-value operation carries, the
/// error of the call that failed, or `Fail` if none was kept.
pub open spec fn spec_callback_result<T>(o: Outcome<Result<T, ErrorCode>>) -> Result<T, ErrorCode> {
    match o {
        Outcome::ShareFailed(e) => Err(e),
        Outcome::Failed(e) => Err(e),
        Outcome::Done(_, Some(r)) => r,
        Outcome::Done(_, None) => Err(ErrorCode::Fail),
    }
}

fn callback_result<T>(o: Outcome<Result<T, ErrorCode>>) -> (r: Result<T, ErrorCode>)
    ensures
        r == spec_callback_result(o),
{
    match o {
        Outcome::ShareFailed(e) => Err(e),
        Outcome::Failed(e) => Err(e),
        Outcome::Done(_, Some(r)) => r,
        Outcome::Done(_, None) => Err(ErrorCode::Fail),
    }
}

/// The key-value store driver.
pub struct KeyValue;

impl KeyValue {
    /// Checks that the driver is present: it is when the reply `is_success`.
    pub fn driver_exists() -> (c: Command)
        ensures
            c == cmd(DRIVER_NUM, DRIVER_CHECK, 0, 0),
    {
        Command::new(DRIVER_NUM, DRIVER_CHECK, 0, 0)
    }

    /// Gets the value of a key: shares the key and the value buffer,
    /// subscribes, asks, and yields until the callback.
    pub fn get() -> (t: Transaction)
        ensures
            t.is(
                seq![Share::AllowRo(ALLOW_RO_KEY), Share::AllowRw(ALLOW_RW_VALUE_READ), Share::Subscribe(SUBSCRIBE_CALLBACK)],
                Some(cmd(DRIVER_NUM, GET, 0, 0)),
                Expect::Unit,
                Wait::YieldFirst,
            ),
    {
        Transaction::new(
            vec![Share::AllowRo(ALLOW_RO_KEY), Share::AllowRw(ALLOW_RW_VALUE_READ), Share::Subscribe(SUBSCRIBE_CALLBACK)],
            Some(Command::new(DRIVER_NUM, GET, 0, 0)),
            Expect::Unit,
            Wait::YieldFirst,
        )
    }

    /// The value's length that the callback reports, or an error.
    pub fn get_outcome(o: Outcome<Result<u32, ErrorCode>>) -> (r: Result<u32, ErrorCode>)
        ensures
            r == spec_callback_result(o),
    {
        callback_result(o)
    }

    /// Stores a value with the given command: shares the key and the value,
    /// subscribes, asks, and yields until the callback.
    fn insert(command_num: u32) -> (t: Transaction)
        ensures
            t.is(
                seq![Share::AllowRo(ALLOW_RO_KEY), Share::AllowRo(ALLOW_RO_VALUE_WRITE), Share::Subscribe(SUBSCRIBE_CALLBACK)],
                Some(cmd(DRIVER_NUM, command_num, 0, 0)),
                Expect::Unit,
                Wait::YieldFirst,
            ),
    {
        Transaction::new(
            vec![Share::AllowRo(ALLOW_RO_KEY), Share::AllowRo(ALLOW_RO_VALUE_WRITE), Share::Subscribe(SUBSCRIBE_CALLBACK)],
            Some(Command::new(DRIVER_NUM, command_num, 0, 0)),
            Expect::Unit,
            Wait::YieldFirst,
        )
    }

    /// Sets the value of a key, whether it exists or not.
    pub fn set() -> (t: Transaction)
        ensures
            t.is(
                seq![Share::AllowRo(ALLOW_RO_KEY), Share::AllowRo(ALLOW_RO_VALUE_WRITE), Share::Subscribe(SUBSCRIBE_CALLBACK)],
                Some(cmd(DRIVER_NUM, SET, 0, 0)),
                Expect::Unit,
                Wait::YieldFirst,
            ),
    {
        Self::insert(SET)
    }

    /// Adds a key that does not exist yet.
    pub fn add() -> (t: Transaction)
        ensures
            t.is(
                seq![Share::AllowRo(ALLOW_RO_KEY), Share::AllowRo(ALLOW_RO_VALUE_WRITE), Share::Subscribe(SUBSCRIBE_CALLBACK)],
                Some(cmd(DRIVER_NUM, ADD, 0, 0)),
                Expect::Unit,
                Wait::YieldFirst,
            ),
    {
        Self::insert(ADD)
    }

    /// Updates a key that exists.
    pub fn update() -> (t: Transaction)
        ensures
            t.is(
                seq![Share::AllowRo(ALLOW_RO_KEY), Share::AllowRo(ALLOW_RO_VALUE_WRITE), Share::Subscribe(SUBSCRIBE_CALLBACK)],
                Some(cmd(DRIVER_NUM, UPDATE, 0, 0)),
                Expect::Unit,
                Wait::YieldFirst,
            ),
    {
        Self::insert(UPDATE)
    }

    /// Deletes a key: shares it, subscribes, asks, and yields until the
    /// callback.
    pub fn delete() -> (t: Transaction)
        ensures
            t.is(
                seq![Share::AllowRo(ALLOW_RO_KEY), Share::Subscribe(SUBSCRIBE_CALLBACK)],
                Some(cmd(DRIVER_NUM, DELETE, 0, 0)),
                Expect::Unit,
                Wait::YieldFirst,
            ),
    {
        Transaction::new(
            vec![Share::AllowRo(ALLOW_RO_KEY), Share::Subscribe(SUBSCRIBE_CALLBACK)],
            Some(Command::new(DRIVER_NUM, DELETE, 0, 0)),
            Expect::Unit,
            Wait::YieldFirst,
        )
    }

    /// What a set, add, update or delete returns: the callback's result, or
    /// an error.
    pub fn store_outcome(o: Outcome<Result<(), ErrorCode>>) -> (r: Result<(), ErrorCode>)
        ensures
            r == spec_callback_result(o),
    {
        callback_result(o)
    }
}

} // verus!
