use vstd::prelude::*;
use crate::error_code::ErrorCode;
use crate::syscall::{cmd, Command, Expect, Outcome, Share, Transaction, Wait};

verus! {

pub const DRIVER_NUM: u32 = 0x1;

pub const EXISTS: u32 = 0;
pub const WRITE: u32 = 1;
pub const READ: u32 = 2;
pub const ABORT: u32 = 3;

pub const SUBSCRIBE_WRITE: u32 = 1;
pub const SUBSCRIBE_READ: u32 = 2;
pub const ALLOW_RO_WRITE: u32 = 1;
pub const ALLOW_RW_READ: u32 = 1;

/// System call configuration for `Console`.
pub trait Config: crate::config::Config {}

impl<T: crate::config::Config> Config for T {}

/// The console driver: it passes bytes to and from the kernel's console.
pub struct Console;

impl Console {
    /// Checks that the driver is present: it is when the reply `is_success`.
    pub fn driver_exists() -> (c: Command)
        ensures
            c == cmd(DRIVER_NUM, EXISTS, 0, 0),
    {
        Command::new(DRIVER_NUM, EXISTS, 0, 0)
    }

    /// Writes `len` bytes: shares them, subscribes to the write upcall,
    /// starts the write and yields until the upcall comes.
    pub fn write(len: usize) -> (t: Transaction)
        ensures
            t.is(
                seq![Share::AllowRo(ALLOW_RO_WRITE), Share::Subscribe(SUBSCRIBE_WRITE)],
                Some(cmd(DRIVER_NUM, WRITE, len as u32, 0)),
                Expect::Unit,
                Wait::YieldFirst,
            ),
    {
        Transaction::new(
            vec![Share::AllowRo(ALLOW_RO_WRITE), Share::Subscribe(SUBSCRIBE_WRITE)],
            Some(Command::new(DRIVER_NUM, WRITE, len as u32, 0)),
            Expect::Unit,
            Wait::YieldFirst,
        )
    }

    /// What a write returns: the error of the call that failed, or success
    /// once the upcall came.
    pub fn write_outcome(o: Outcome<u32>) -> (r: Result<(), ErrorCode>)
        ensures
            r == (match o {
                Outcome::ShareFailed(e) => Err(e),
                Outcome::Failed(e) => Err(e),
                Outcome::Done(_, _) => Ok::<(), ErrorCode>(()),
            }),
    {
        match o {
            Outcome::ShareFailed(e) => Err(e),
            Outcome::Failed(e) => Err(e),
            Outcome::Done(_, _) => Ok(()),
        }
    }

    /// Reads into a buffer of `len` bytes: shares it, subscribes to the read
    /// upcall, starts the read and yields until the upcall, which carries a
    /// status and the number of bytes received.
    pub fn read(len: usize) -> (t: Transaction)
        ensures
            t.is(
                seq![Share::AllowRw(ALLOW_RW_READ), Share::Subscribe(SUBSCRIBE_READ)],
                Some(cmd(DRIVER_NUM, READ, len as u32, 0)),
                Expect::Unit,
                Wait::YieldFirst,
            ),
    {
        Transaction::new(
            vec![Share::AllowRw(ALLOW_RW_READ), Share::Subscribe(SUBSCRIBE_READ)],
            Some(Command::new(DRIVER_NUM, READ, len as u32, 0)),
            Expect::Unit,
            Wait::YieldFirst,
        )
    }

    /// What a read returns: the count the upcall reported and its status, or
    /// no bytes and the error of the call that failed.
    pub fn read_outcome(o: Outcome<(u32, u32)>) -> (r: (usize, Result<(), ErrorCode>))
        requires
            o.waited(),
        ensures
            r == (match o {
                Outcome::ShareFailed(e) => (0usize, Err(e)),
                Outcome::Failed(e) => (0usize, Err(e)),
                Outcome::Done(_, u) => (u->Some_0.1 as usize, ErrorCode::spec_status(u->Some_0.0)),
            }),
    {
        match o {
            Outcome::ShareFailed(e) => (0, Err(e)),
            Outcome::Failed(e) => (0, Err(e)),
            Outcome::Done(_, u) => match u {
                Some((status, count)) => (count as usize, ErrorCode::status_to_result(status)),
                None => (0, Err(ErrorCode::Fail)),
            },
        }
    }
}

} // verus!
