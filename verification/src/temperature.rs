use vstd::prelude::*;
use crate::command_return::{as_signed, to_signed};
use crate::error_code::ErrorCode;
use crate::syscall::{cmd, Command, Expect, Outcome, Share, Transaction, Wait};

verus! {

pub const DRIVER_NUM: u32 = 0x60000;

pub const EXISTS: u32 = 0;
pub const READ_TEMP: u32 = 1;

/// The temperature sensor driver. A temperature is in hundredths of a degree
/// Celsius and may be negative.
pub struct Temperature;

impl Temperature {
    /// Checks that the driver is present; the reply reads with `to_result_unit`.
    pub fn driver_exists() -> (c: Command)
        ensures
            c == cmd(DRIVER_NUM, EXISTS, 0, 0),
    {
        Command::new(DRIVER_NUM, EXISTS, 0, 0)
    }

    /// Starts a measurement; the reply reads with `to_result_unit`.
    pub fn read_temperature() -> (c: Command)
        ensures
            c == cmd(DRIVER_NUM, READ_TEMP, 0, 0),
    {
        Command::new(DRIVER_NUM, READ_TEMP, 0, 0)
    }

    /// A synchronous measurement: subscribes, starts it, waits for the upcall.
    pub fn read_temperature_sync() -> (t: Transaction)
        ensures
            t.is(seq![Share::Subscribe(0)], Some(cmd(DRIVER_NUM, READ_TEMP, 0, 0)), Expect::Unit, Wait::PollFirst),
    {
        Transaction::subscribe_and_wait(0, Self::read_temperature(), Wait::PollFirst)
    }

    /// The temperature that the upcall carried; the command's error if it
    /// failed; `Fail` if the subscription failed or no temperature was kept.
    pub fn read_temperature_sync_outcome(o: Outcome<i32>) -> (r: Result<i32, ErrorCode>)
        ensures
            r == (match o {
                Outcome::ShareFailed(_) => Err(ErrorCode::Fail),
                Outcome::Failed(e) => Err(e),
                Outcome::Done(_, Some(v)) => Ok::<i32, ErrorCode>(v),
                Outcome::Done(_, None) => Err(ErrorCode::Fail),
            }),
    {
        match o {
            Outcome::ShareFailed(_) => Err(ErrorCode::Fail),
            Outcome::Failed(e) => Err(e),
            Outcome::Done(_, Some(v)) => Ok(v),
            Outcome::Done(_, None) => Err(ErrorCode::Fail),
        }
    }
}

/// Calls its closure with each temperature, the upcall's first argument read
/// as signed.
pub struct TemperatureListener<F: Fn(i32)>(pub F);

impl<F: Fn(i32)> TemperatureListener<F> {
    pub fn upcall(&self, temp_val: u32, arg1: u32, arg2: u32)
        requires
            self.0.requires((as_signed(temp_val),)),
        ensures
            self.0.ensures((as_signed(temp_val),), ()),
    {
        (self.0)(to_signed(temp_val))
    }
}

} // verus!
