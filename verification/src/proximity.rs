use vstd::prelude::*;
use crate::error_code::ErrorCode;
use crate::syscall::{cmd, spec_value_else, value_else, Command, Expect, Outcome, Share, Transaction, Wait};

verus! {

pub const DRIVER_NUM: u32 = 0x60005;

pub const EXISTS: u32 = 0;
pub const READ: u32 = 1;
pub const READ_ON_INT: u32 = 2;

/// The proximity sensor driver.
pub struct Proximity;

impl Proximity {
    /// Checks that the driver is present; the reply reads with `to_result_unit`.
    pub fn driver_exists() -> (c: Command)
        ensures
            c == cmd(DRIVER_NUM, EXISTS, 0, 0),
    {
        Command::new(DRIVER_NUM, EXISTS, 0, 0)
    }

    /// Starts a reading; the reply reads with `to_result_unit`.
    pub fn read() -> (c: Command)
        ensures
            c == cmd(DRIVER_NUM, READ, 0, 0),
    {
        Command::new(DRIVER_NUM, READ, 0, 0)
    }

    /// Starts a reading that the driver reports only once the value falls
    /// outside `lower..=upper`; the reply reads with `to_result_unit`.
    pub fn read_on_interrupt(lower: u32, upper: u32) -> (c: Command)
        ensures
            c == cmd(DRIVER_NUM, READ_ON_INT, lower, upper),
    {
        Command::new(DRIVER_NUM, READ_ON_INT, lower, upper)
    }

    /// A synchronous reading: subscribes, starts it, waits for the upcall.
    pub fn read_sync() -> (t: Transaction)
        ensures
            t.is(seq![Share::Subscribe(0)], Some(cmd(DRIVER_NUM, READ, 0, 0)), Expect::Unit, Wait::PollFirst),
    {
        Transaction::subscribe_and_wait(0, Self::read(), Wait::PollFirst)
    }

    /// Waits for a value outside `lower..=upper`; a range whose lower end is
    /// above its upper end is refused with `Invalid`.
    pub fn wait_for_value_between(lower: u32, upper: u32) -> (r: Result<Transaction, ErrorCode>)
        ensures
            lower > upper ==> r == Err::<Transaction, ErrorCode>(ErrorCode::Invalid),
            lower <= upper ==> (r matches Ok(t) && t.is(
                seq![Share::Subscribe(0)],
                Some(cmd(DRIVER_NUM, READ_ON_INT, lower, upper)),
                Expect::Unit,
                Wait::PollFirst,
            )),
    {
        if lower > upper {
            return Err(ErrorCode::Invalid);
        }
        Ok(Transaction::subscribe_and_wait(0, Self::read_on_interrupt(lower, upper), Wait::PollFirst))
    }

    /// The value that the upcall carried, or `Busy` whenever none was kept.
    pub fn read_sync_outcome(o: Outcome<u32>) -> (r: Result<u32, ErrorCode>)
        ensures
            r == spec_value_else(o, ErrorCode::Busy),
    {
        value_else(o, ErrorCode::Busy)
    }
}

} // verus!
