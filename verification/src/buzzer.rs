pub mod note;

use vstd::prelude::*;
use crate::error_code::ErrorCode;
use crate::syscall::{cmd, Command, Expect, Outcome, Share, Transaction, Wait};

verus! {

pub const DRIVER_NUM: u32 = 0x90000;

pub const EXISTS: u32 = 0;
pub const BUZZER_ON: u32 = 1;

/// The buzzer driver.
pub struct Buzzer;

impl Buzzer {
    /// Checks that the driver is present; the reply reads with `to_result_unit`.
    pub fn driver_exists() -> (c: Command)
        ensures
            c == cmd(DRIVER_NUM, EXISTS, 0, 0),
    {
        Command::new(DRIVER_NUM, EXISTS, 0, 0)
    }

    /// Plays a tone of `freq` hertz for a duration given in milliseconds,
    /// which the kernel receives cut to 32 bits; the reply reads with
    /// `to_result_unit`.
    pub fn tone(freq: u32, duration_ms: u128) -> (c: Command)
        ensures
            c == cmd(DRIVER_NUM, BUZZER_ON, freq, duration_ms as u32),
    {
        Command::new(DRIVER_NUM, BUZZER_ON, freq, duration_ms as u32)
    }

    /// A synchronous tone: subscribes, plays it, and looks for the upcall
    /// before yielding. The listener starts out holding 0, so the first look
    /// finds it.
    pub fn tone_sync(freq: u32, duration_ms: u128) -> (t: Transaction)
        ensures
            t.is(
                seq![Share::Subscribe(0)],
                Some(cmd(DRIVER_NUM, BUZZER_ON, freq, duration_ms as u32)),
                Expect::Unit,
                Wait::PollFirst,
            ),
    {
        Transaction::subscribe_and_wait(0, Self::tone(freq, duration_ms), Wait::PollFirst)
    }

    /// The value the listener holds at the end, which starts out 0: 0 if the
    /// subscription failed, as nothing was waited for; the command's error if
    /// it failed; the upcall's value otherwise, or `Busy` if it holds none.
    pub fn tone_sync_outcome(o: Outcome<u32>) -> (r: Result<u32, ErrorCode>)
        ensures
            r == (match o {
                Outcome::ShareFailed(_) => Ok::<u32, ErrorCode>(0),
                Outcome::Failed(e) => Err(e),
                Outcome::Done(_, Some(v)) => Ok::<u32, ErrorCode>(v),
                Outcome::Done(_, None) => Err(ErrorCode::Busy),
            }),
    {
        match o {
            Outcome::ShareFailed(_) => Ok(0),
            Outcome::Failed(e) => Err(e),
            Outcome::Done(_, Some(v)) => Ok(v),
            Outcome::Done(_, None) => Err(ErrorCode::Busy),
        }
    }
}

} // verus!
