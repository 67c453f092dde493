use vstd::prelude::*;
use crate::error_code::ErrorCode;
use crate::syscall::{cmd, spec_value_or, value_or, Command, Expect, Outcome, Share, Transaction, Wait};

verus! {

pub const DRIVER_NUM: u32 = 0x60007;

pub const EXISTS: u32 = 0;
pub const READ_CO2: u32 = 2;
pub const READ_TVOC: u32 = 3;

/// The air quality sensor driver.
pub struct AirQuality;

impl AirQuality {
    /// Checks that the driver is present; the reply reads with `to_result_unit`.
    pub fn driver_exists() -> (c: Command)
        ensures
            c == cmd(DRIVER_NUM, EXISTS, 0, 0),
    {
        Command::new(DRIVER_NUM, EXISTS, 0, 0)
    }

    /// Starts a CO2 measurement, for synchronous and asynchronous readings
    /// alike; the reply reads with `to_result_unit`.
    pub fn read_co2() -> (c: Command)
        ensures
            c == cmd(DRIVER_NUM, READ_CO2, 0, 0),
    {
        Command::new(DRIVER_NUM, READ_CO2, 0, 0)
    }

    /// Starts a TVOC measurement, for synchronous and asynchronous readings
    /// alike; the reply reads with `to_result_unit`.
    pub fn read_tvoc() -> (c: Command)
        ensures
            c == cmd(DRIVER_NUM, READ_TVOC, 0, 0),
    {
        Command::new(DRIVER_NUM, READ_TVOC, 0, 0)
    }

    /// A synchronous CO2 reading: subscribes, starts it, waits for the upcall.
    pub fn read_co2_sync() -> (t: Transaction)
        ensures
            t.is(seq![Share::Subscribe(0)], Some(cmd(DRIVER_NUM, READ_CO2, 0, 0)), Expect::Unit, Wait::PollFirst),
    {
        Transaction::subscribe_and_wait(0, Self::read_co2(), Wait::PollFirst)
    }

    /// A synchronous TVOC reading: subscribes, starts it, waits for the upcall.
    pub fn read_tvoc_sync() -> (t: Transaction)
        ensures
            t.is(seq![Share::Subscribe(0)], Some(cmd(DRIVER_NUM, READ_TVOC, 0, 0)), Expect::Unit, Wait::PollFirst),
    {
        Transaction::subscribe_and_wait(0, Self::read_tvoc(), Wait::PollFirst)
    }

    /// The value read, the error of the call that failed, or `Fail` if no
    /// value was kept.
    pub fn read_data_outcome(o: Outcome<u32>) -> (r: Result<u32, ErrorCode>)
        ensures
            r == spec_value_or(o, ErrorCode::Fail),
    {
        value_or(o, ErrorCode::Fail)
    }

    /// Both values, read one after the other (both readings happen): the
    /// CO2 reading's error comes first, then the TVOC reading's.
    pub fn read_sync(co2: Result<u32, ErrorCode>, tvoc: Result<u32, ErrorCode>) -> (r: Result<(u32, u32), ErrorCode>)
        ensures
            r == (match (co2, tvoc) {
                (Ok(c), Ok(t)) => Ok((c, t)),
                (Err(e), _) => Err(e),
                (_, Err(e)) => Err::<(u32, u32), ErrorCode>(e),
            }),
    {
        match (co2, tvoc) {
            (Ok(co2_value), Ok(tvoc_value)) => Ok((co2_value, tvoc_value)),
            (Err(co2_error), _) => Err(co2_error),
            (_, Err(tvoc_error)) => Err(tvoc_error),
        }
    }
}

/// Calls its closure with each value read, the upcall's first argument.
pub struct AirQualityListener<F: Fn(u32)>(pub F);

impl<F: Fn(u32)> AirQualityListener<F> {
    pub fn upcall(&self, data_val: u32, arg1: u32, arg2: u32)
        requires
            self.0.requires((data_val,)),
        ensures
            self.0.ensures((data_val,), ()),
    {
        (self.0)(data_val)
    }
}

} // verus!
