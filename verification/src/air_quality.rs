use vstd::prelude::*;
use crate::error_code::ErrorCode;
use crate::syscall::{cmd, spec_value_else, value_else, Command, Expect, Outcome, Share, Transaction, Wait};

verus! {

pub const DRIVER_NUM: u32 = 0x60007;

pub const EXISTS: u32 = 0;
pub const READ_CO2: u32 = 2;
pub const READ_TVOC: u32 = 3;

/// The air quality sensor driver.
pub struct AirQuality;

impl AirQuality {
    /// Checks that the driver is present; the reply reads with `to_result_unit`.
    pub fn driver_exists() -> (c: Command)
        ensures
            c == cmd(DRIVER_NUM, EXISTS, 0, 0),
    {
        Command::new(DRIVER_NUM, EXISTS, 0, 0)
    }

    /// Starts a CO2 reading; the reply reads with `to_result_unit`.
    pub fn read_co2() -> (c: Command)
        ensures
            c == cmd(DRIVER_NUM, READ_CO2, 0, 0),
    {
        Command::new(DRIVER_NUM, READ_CO2, 0, 0)
    }

    /// Starts a TVOC reading; the reply reads with `to_result_unit`.
    pub fn read_tvoc() -> (c: Command)
        ensures
            c == cmd(DRIVER_NUM, READ_TVOC, 0, 0),
    {
        Command::new(DRIVER_NUM, READ_TVOC, 0, 0)
    }

    /// A synchronous CO2 reading: subscribes, starts it, waits for the upcall.
    pub fn read_co2_sync() -> (t: Transaction)
        ensures
            t.is(seq![Share::Subscribe(0)], Some(cmd(DRIVER_NUM, READ_CO2, 0, 0)), Expect::Unit, Wait::PollFirst),
    {
        Transaction::subscribe_and_wait(0, Self::read_co2(), Wait::PollFirst)
    }

    /// A synchronous TVOC reading: subscribes, starts it, waits for the upcall.
    pub fn read_tvoc_sync() -> (t: Transaction)
        ensures
            t.is(seq![Share::Subscribe(0)], Some(cmd(DRIVER_NUM, READ_TVOC, 0, 0)), Expect::Unit, Wait::PollFirst),
    {
        Transaction::subscribe_and_wait(0, Self::read_tvoc(), Wait::PollFirst)
    }

    /// The value read, or `Busy` whenever none came, whatever call failed.
    pub fn read_data_outcome(o: Outcome<u32>) -> (r: Result<u32, ErrorCode>)
        ensures
            r == spec_value_else(o, ErrorCode::Busy),
    {
        value_else(o, ErrorCode::Busy)
    }
}

} // verus!
