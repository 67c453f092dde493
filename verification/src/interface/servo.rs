use vstd::prelude::*;
use crate::command_return::{CommandReturn, SUCCESS};
use crate::error_code::ErrorCode;
use crate::syscall::{cmd, Command};

verus! {

pub const DRIVER_NUM: u32 = 0x90009;

pub const EXISTS: u32 = 0;
pub const SERVO_COUNT: u32 = 1;
pub const SET_ANGLE: u32 = 2;
pub const GET_ANGLE: u32 = 3;

/// The servomotor driver.
pub struct Servo;

impl Servo {
    /// Checks whether the driver exists.
    pub fn driver_exists() -> (c: Command)
        ensures
            c == cmd(DRIVER_NUM, EXISTS, 0, 0),
    {
        Command::new(DRIVER_NUM, EXISTS, 0, 0)
    }

    /// The driver exists when the reply is a plain success; any other reply
    /// reads as `Fail`.
    pub fn driver_exists_reply(reply: &CommandReturn) -> (r: Result<(), ErrorCode>)
        ensures
            r == (if reply.return_variant == SUCCESS {
                Ok::<(), ErrorCode>(())
            } else {
                Err(ErrorCode::Fail)
            }),
    {
        if reply.is_success() {
            Ok(())
        } else {
            Err(ErrorCode::Fail)
        }
    }

    /// Asks for the number of servomotors; the reply reads with `to_result_u32`.
    pub fn servo_count() -> (c: Command)
        ensures
            c == cmd(DRIVER_NUM, SERVO_COUNT, 0, 0),
    {
        Command::new(DRIVER_NUM, SERVO_COUNT, 0, 0)
    }

    /// Turns servomotor `index` to `angle` degrees; the reply reads with
    /// `to_result_unit`: `Invalid` for an angle beyond 16 bits, `NoDevice`
    /// for an index beyond the servomotors present.
    pub fn set_angle(index: u32, angle: u32) -> (c: Command)
        ensures
            c == cmd(DRIVER_NUM, SET_ANGLE, index, angle),
    {
        Command::new(DRIVER_NUM, SET_ANGLE, index, angle)
    }

    /// Asks for the angle of servomotor `index`; the reply reads with
    /// `to_result_u32`.
    pub fn get_angle(index: u32) -> (c: Command)
        ensures
            c == cmd(DRIVER_NUM, GET_ANGLE, index, 0),
    {
        Command::new(DRIVER_NUM, GET_ANGLE, index, 0)
    }
}

} // verus!
