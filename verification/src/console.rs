use vstd::prelude::*;
use crate::error_code::ErrorCode;
use crate::syscall::{cmd, completion, spec_completion, Command, Expect, Outcome, Share, Transaction, Wait};

verus! {

pub const DRIVER_NUM: u32 = 1;

pub const DRIVER_CHECK: u32 = 0;
pub const WRITE: u32 = 1;
pub const READ: u32 = 2;
pub const ABORT: u32 = 3;

pub const SUBSCRIBE_WRITE: u32 = 1;
pub const SUBSCRIBE_READ: u32 = 2;
pub const ALLOW_RO_WRITE: u32 = 1;

/// The console driver: it passes bytes to the kernel's console.
pub struct Console;

impl Console {
    /// Checks that the driver is present: it is when the reply `is_success`.
    pub fn driver_check() -> (c: Command)
        ensures
            c == cmd(DRIVER_NUM, DRIVER_CHECK, 0, 0),
    {
        Command::new(DRIVER_NUM, DRIVER_CHECK, 0, 0)
    }

    /// Writes `len` bytes: shares them, subscribes to the write upcall,
    /// starts the write and yields until the upcall comes.
    pub fn write(len: usize) -> (t: Transaction)
        ensures
            t.is(
                seq![Share::AllowRo(ALLOW_RO_WRITE), Share::Subscribe(SUBSCRIBE_WRITE)],
                Some(cmd(DRIVER_NUM, WRITE, len as u32, 0)),
                Expect::Unit,
                Wait::YieldFirst,
            ),
    {
        Transaction::new(
            vec![Share::AllowRo(ALLOW_RO_WRITE), Share::Subscribe(SUBSCRIBE_WRITE)],
            Some(Command::new(DRIVER_NUM, WRITE, len as u32, 0)),
            Expect::Unit,
            Wait::YieldFirst,
        )
    }

    /// What a write returns: the error of the call that failed, or success
    /// once the upcall came.
    pub fn write_outcome(o: Outcome<u32>) -> (r: Result<(), ErrorCode>)
        ensures
            r == spec_completion(o),
    {
        completion(o)
    }
}

} // verus!
