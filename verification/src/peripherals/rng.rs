use vstd::prelude::*;
use crate::error_code::ErrorCode;
use crate::syscall::{cmd, completion, spec_completion, Command, Expect, Outcome, Share, Transaction, Wait};

verus! {

pub const DRIVER_NUM: u32 = 0x40001;

pub const EXISTS: u32 = 0;
pub const GET_BYTES: u32 = 1;

/// The random number generator driver.
pub struct Rng;

impl Rng {
    /// Checks that the driver is present; the reply reads with `to_result_unit`.
    pub fn driver_exists() -> (c: Command)
        ensures
            c == cmd(DRIVER_NUM, EXISTS, 0, 0),
    {
        Command::new(DRIVER_NUM, EXISTS, 0, 0)
    }

    /// Asks for `n` random bytes in the buffer shared before; the reply reads
    /// with `to_result_unit`.
    pub fn get_bytes_async(n: u32) -> (c: Command)
        ensures
            c == cmd(DRIVER_NUM, GET_BYTES, n, 0),
    {
        Command::new(DRIVER_NUM, GET_BYTES, n, 0)
    }

    /// Fills a buffer with `n` random bytes, or the whole buffer if it is
    /// shorter: shares it, subscribes, asks, and waits for the upcall.
    pub fn get_bytes_sync(n: u32) -> (t: Transaction)
        ensures
            t.is(
                seq![Share::AllowRw(0), Share::Subscribe(0)],
                Some(cmd(DRIVER_NUM, GET_BYTES, n, 0)),
                Expect::Unit,
                Wait::PollFirst,
            ),
    {
        Transaction::new(
            vec![Share::AllowRw(0), Share::Subscribe(0)],
            Some(Command::new(DRIVER_NUM, GET_BYTES, n, 0)),
            Expect::Unit,
            Wait::PollFirst,
        )
    }

    /// The error of the call that failed, or success once the upcall came.
    pub fn get_bytes_sync_outcome(o: Outcome<()>) -> (r: Result<(), ErrorCode>)
        ensures
            r == spec_completion(o),
    {
        completion(o)
    }
}

/// Calls its closure with the number of random bytes written, the upcall's
/// second argument.
pub struct RngListener<F: Fn(u32)>(pub F);

impl<F: Fn(u32)> RngListener<F> {
    pub fn upcall(&self, arg0: u32, arg1: u32, arg2: u32)
        requires
            self.0.requires((arg1,)),
        ensures
            self.0.ensures((arg1,), ()),
    {
        (self.0)(arg1)
    }
}

} // verus!
