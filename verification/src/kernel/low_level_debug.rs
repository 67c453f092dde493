use vstd::prelude::*;
use crate::syscall::{cmd, Command};

verus! {

pub const DRIVER_NUM: u32 = 0x8;

pub const EXISTS: u32 = 0;
pub const PRINT_ALERT_CODE: u32 = 1;
pub const PRINT_1: u32 = 2;
pub const PRINT_2: u32 = 3;

/// Tools to diagnose an application with the command system call alone. The
/// printing commands' replies are ignored.
pub struct LowLevelDebug;

impl LowLevelDebug {
    /// Checks that the driver is present: it is when the reply `is_success`.
    pub fn driver_exists() -> (c: Command)
        ensures
            c == cmd(DRIVER_NUM, EXISTS, 0, 0),
    {
        Command::new(DRIVER_NUM, EXISTS, 0, 0)
    }

    /// Prints one of the predefined alerts.
    pub fn print_alert_code(code: AlertCode) -> (c: Command)
        ensures
            c == cmd(DRIVER_NUM, PRINT_ALERT_CODE, code.spec_code(), 0),
    {
        Command::new(DRIVER_NUM, PRINT_ALERT_CODE, code.code(), 0)
    }

    /// Prints a number in hexadecimal.
    pub fn print_1(x: u32) -> (c: Command)
        ensures
            c == cmd(DRIVER_NUM, PRINT_1, x, 0),
    {
        Command::new(DRIVER_NUM, PRINT_1, x, 0)
    }

    /// Prints two numbers in hexadecimal.
    pub fn print_2(x: u32, y: u32) -> (c: Command)
        ensures
            c == cmd(DRIVER_NUM, PRINT_2, x, y),
    {
        Command::new(DRIVER_NUM, PRINT_2, x, y)
    }
}

/// A predefined alert code.
#[derive(Clone, Copy, Debug, PartialEq, Eq, Structural)]
pub enum AlertCode {
    /// Application panic.
    Panic,
    /// A statically-linked app was not installed in the correct location in
    /// flash.
    WrongLocation,
}

impl AlertCode {
    pub open spec fn spec_code(self) -> u32 {
        match self {
            AlertCode::Panic => 0x01,
            AlertCode::WrongLocation => 0x02,
        }
    }

    /// The number the kernel knows the alert by.
    pub fn code(self) -> (c: u32)
        ensures
            c == self.spec_code(),
    {
        match self {
            AlertCode::Panic => 0x01,
            AlertCode::WrongLocation => 0x02,
        }
    }
}

} // verus!
