use vstd::prelude::*;
use crate::error_code::ErrorCode;
use crate::syscall::{cmd, spec_value_else, value_else, Command, Expect, Outcome, Share, Transaction, Wait};

verus! {

pub const DRIVER_NUM: u32 = 0x60002;

pub const EXISTS: u32 = 0;
pub const READ_INTENSITY: u32 = 1;

/// The ambient light sensor driver.
pub struct AmbientLight;

impl AmbientLight {
    /// Checks that the driver is present; the reply reads with `to_result_unit`.
    pub fn driver_exists() -> (c: Command)
        ensures
            c == cmd(DRIVER_NUM, EXISTS, 0, 0),
    {
        Command::new(DRIVER_NUM, EXISTS, 0, 0)
    }

    /// Starts a light intensity reading; the reply reads with `to_result_unit`.
    pub fn read_intensity() -> (c: Command)
        ensures
            c == cmd(DRIVER_NUM, READ_INTENSITY, 0, 0),
    {
        Command::new(DRIVER_NUM, READ_INTENSITY, 0, 0)
    }

    /// A synchronous reading: subscribes, starts it, waits for the upcall.
    pub fn read_intensity_sync() -> (t: Transaction)
        ensures
            t.is(seq![Share::Subscribe(0)], Some(cmd(DRIVER_NUM, READ_INTENSITY, 0, 0)), Expect::Unit, Wait::PollFirst),
    {
        Transaction::subscribe_and_wait(0, Self::read_intensity(), Wait::PollFirst)
    }

    /// The intensity in lux, or `Busy` whenever none came.
    pub fn read_intensity_sync_outcome(o: Outcome<u32>) -> (r: Result<u32, ErrorCode>)
        ensures
            r == spec_value_else(o, ErrorCode::Busy),
    {
        value_else(o, ErrorCode::Busy)
    }
}

/// Calls its closure with each intensity, the upcall's first argument.
pub struct IntensityListener<F: Fn(u32)>(pub F);

impl<F: Fn(u32)> IntensityListener<F> {
    pub fn upcall(&self, intensity: u32, arg1: u32, arg2: u32)
        requires
            self.0.requires((intensity,)),
        ensures
            self.0.ensures((intensity,), ()),
    {
        (self.0)(intensity)
    }
}

} // verus!
