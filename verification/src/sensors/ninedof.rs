use vstd::prelude::*;
use crate::error_code::ErrorCode;
use crate::command_return::{as_signed, to_signed};
use crate::syscall::{cmd, spec_value_or, value_or, Command, Expect, Outcome, Share, Transaction, Wait};

verus! {

pub const DRIVER_NUM: u32 = 0x60004;

pub const EXISTS: u32 = 0;
pub const READ_ACCELEROMETER: u32 = 1;
pub const READ_MAGNETOMETER: u32 = 100;
pub const READ_GYRO: u32 = 200;

/// A reading on three axes.
#[derive(Clone, Copy, Debug, PartialEq, Eq, Structural)]
pub struct NineDofData {
    pub x: i32,
    pub y: i32,
    pub z: i32,
}

impl NineDofData {
    /// The reading that an upcall carries: one axis per argument, each read
    /// as signed.
    pub open spec fn spec_from_upcall(arg0: u32, arg1: u32, arg2: u32) -> NineDofData {
        NineDofData { x: as_signed(arg0), y: as_signed(arg1), z: as_signed(arg2) }
    }

    pub fn from_upcall(arg0: u32, arg1: u32, arg2: u32) -> (d: NineDofData)
        ensures
            d == Self::spec_from_upcall(arg0, arg1, arg2),
    {
        NineDofData { x: to_signed(arg0), y: to_signed(arg1), z: to_signed(arg2) }
    }
}

/// The nine degrees of freedom sensor driver.
pub struct NineDof;

impl NineDof {
    /// Checks that the driver is present; the reply reads with `to_result_unit`.
    pub fn driver_exists() -> (c: Command)
        ensures
            c == cmd(DRIVER_NUM, EXISTS, 0, 0),
    {
        Command::new(DRIVER_NUM, EXISTS, 0, 0)
    }

    /// Starts an accelerometer measurement; the reply reads with
    /// `to_result_unit`.
    pub fn read_accelerometer() -> (c: Command)
        ensures
            c == cmd(DRIVER_NUM, READ_ACCELEROMETER, 0, 0),
    {
        Command::new(DRIVER_NUM, READ_ACCELEROMETER, 0, 0)
    }

    /// Starts a magnetometer measurement; the reply reads with
    /// `to_result_unit`.
    pub fn read_magnetometer() -> (c: Command)
        ensures
            c == cmd(DRIVER_NUM, READ_MAGNETOMETER, 0, 0),
    {
        Command::new(DRIVER_NUM, READ_MAGNETOMETER, 0, 0)
    }

    /// Starts a gyroscope measurement; the reply reads with `to_result_unit`.
    pub fn read_gyro() -> (c: Command)
        ensures
            c == cmd(DRIVER_NUM, READ_GYRO, 0, 0),
    {
        Command::new(DRIVER_NUM, READ_GYRO, 0, 0)
    }

    /// A synchronous accelerometer reading.
    pub fn read_accelerometer_sync() -> (t: Transaction)
        ensures
            t.is(seq![Share::Subscribe(0)], Some(cmd(DRIVER_NUM, READ_ACCELEROMETER, 0, 0)), Expect::Unit, Wait::PollFirst),
    {
        Transaction::subscribe_and_wait(0, Self::read_accelerometer(), Wait::PollFirst)
    }

    /// A synchronous magnetometer reading.
    pub fn read_magnetometer_sync() -> (t: Transaction)
        ensures
            t.is(seq![Share::Subscribe(0)], Some(cmd(DRIVER_NUM, READ_MAGNETOMETER, 0, 0)), Expect::Unit, Wait::PollFirst),
    {
        Transaction::subscribe_and_wait(0, Self::read_magnetometer(), Wait::PollFirst)
    }

    /// A synchronous gyroscope reading.
    pub fn read_gyroscope_sync() -> (t: Transaction)
        ensures
            t.is(seq![Share::Subscribe(0)], Some(cmd(DRIVER_NUM, READ_GYRO, 0, 0)), Expect::Unit, Wait::PollFirst),
    {
        Transaction::subscribe_and_wait(0, Self::read_gyro(), Wait::PollFirst)
    }

    /// The reading, the error of the call that failed, or `Fail` if none was
    /// kept.
    pub fn read_sync_outcome(o: Outcome<NineDofData>) -> (r: Result<NineDofData, ErrorCode>)
        ensures
            r == spec_value_or(o, ErrorCode::Fail),
    {
        value_or(o, ErrorCode::Fail)
    }
}

/// Calls its closure with each reading.
pub struct NineDofListener<F: Fn(NineDofData)>(pub F);

impl<F: Fn(NineDofData)> NineDofListener<F> {
    pub fn upcall(&self, arg0: u32, arg1: u32, arg2: u32)
        requires
            self.0.requires((NineDofData::spec_from_upcall(arg0, arg1, arg2),)),
        ensures
            self.0.ensures((NineDofData::spec_from_upcall(arg0, arg1, arg2),), ()),
    {
        (self.0)(NineDofData::from_upcall(arg0, arg1, arg2))
    }
}

} // verus!
