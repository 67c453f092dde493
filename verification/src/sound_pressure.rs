use vstd::prelude::*;
use crate::error_code::ErrorCode;
use crate::syscall::{cmd, Command, Expect, Outcome, Share, Transaction, Wait};

verus! {

pub const DRIVER_NUM: u32 = 0x60006;

pub const EXISTS: u32 = 0;
pub const READ_PRESSURE: u32 = 1;
pub const ENABLE: u32 = 2;
pub const DISABLE: u32 = 3;

/// The sound pressure sensor driver. Each command's reply reads with
/// `to_result_unit`.
pub struct SoundPressure;

impl SoundPressure {
    pub fn driver_exists() -> (c: Command)
        ensures
            c == cmd(DRIVER_NUM, EXISTS, 0, 0),
    {
        Command::new(DRIVER_NUM, EXISTS, 0, 0)
    }

    /// Starts a measurement.
    pub fn read() -> (c: Command)
        ensures
            c == cmd(DRIVER_NUM, READ_PRESSURE, 0, 0),
    {
        Command::new(DRIVER_NUM, READ_PRESSURE, 0, 0)
    }

    pub fn enable() -> (c: Command)
        ensures
            c == cmd(DRIVER_NUM, ENABLE, 0, 0),
    {
        Command::new(DRIVER_NUM, ENABLE, 0, 0)
    }

    pub fn disable() -> (c: Command)
        ensures
            c == cmd(DRIVER_NUM, DISABLE, 0, 0),
    {
        Command::new(DRIVER_NUM, DISABLE, 0, 0)
    }

    /// A synchronous measurement: subscribes, starts it, waits for the upcall.
    pub fn read_sync() -> (t: Transaction)
        ensures
            t.is(seq![Share::Subscribe(0)], Some(cmd(DRIVER_NUM, READ_PRESSURE, 0, 0)), Expect::Unit, Wait::PollFirst),
    {
        Transaction::subscribe_and_wait(0, Self::read(), Wait::PollFirst)
    }

    /// The pressure, a value from 0 to 255; a larger value is `Invalid`.
    /// Without a value, the error of the call that failed, or `Fail`.
    pub fn read_sync_outcome(o: Outcome<u32>) -> (r: Result<u8, ErrorCode>)
        ensures
            r == (match o {
                Outcome::ShareFailed(e) => Err(e),
                Outcome::Failed(e) => Err(e),
                Outcome::Done(_, None) => Err(ErrorCode::Fail),
                Outcome::Done(_, Some(v)) => if v > 255 {
                    Err(ErrorCode::Invalid)
                } else {
                    Ok::<u8, ErrorCode>(v as u8)
                },
            }),
    {
        match o {
            Outcome::ShareFailed(e) => Err(e),
            Outcome::Failed(e) => Err(e),
            Outcome::Done(_, None) => Err(ErrorCode::Fail),
            Outcome::Done(_, Some(v)) => {
                if v > 255 {
                    Err(ErrorCode::Invalid)
                } else {
                    Ok(v as u8)
                }
            },
        }
    }
}

/// Calls its closure with each pressure value, the upcall's first argument.
pub struct SoundPressureListener<F: Fn(u32)>(pub F);

impl<F: Fn(u32)> SoundPressureListener<F> {
    pub fn upcall(&self, pressure_val: u32, arg1: u32, arg2: u32)
        requires
            self.0.requires((pressure_val,)),
        ensures
            self.0.ensures((pressure_val,), ()),
    {
        (self.0)(pressure_val)
    }
}

} // verus!
