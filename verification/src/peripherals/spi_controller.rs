use vstd::prelude::*;
use crate::error_code::ErrorCode;
use crate::syscall::{cmd, Command, Expect, Outcome, Share, Transaction, Wait};

verus! {

pub const DRIVER_NUM: u32 = 0x20001;

pub const EXISTS: u32 = 0;
pub const READ_WRITE_BYTES: u32 = 2;
pub const SET_BAUD: u32 = 5;
pub const GET_BAUD: u32 = 6;
pub const SET_PHASE: u32 = 7;
pub const GET_PHASE: u32 = 8;
pub const SET_POLARITY: u32 = 9;
pub const GET_POLARITY: u32 = 10;
pub const READ_BYTES: u32 = 11;
pub const INPLACE_READ_WRITE_BYTES: u32 = 12;

pub const SUBSCRIBE_COMPLETE: u32 = 0;
pub const ALLOW_RO_WRITE: u32 = 0;
pub const ALLOW_RW_READ: u32 = 0;

/// System call configuration for `SpiController`.
pub trait Config: crate::config::Config {}

impl<T: crate::config::Config> Config for T {}

/// The SPI controller driver. Each transfer of `len` bytes is refused with
/// `NoMem`, before any system call, when a buffer it uses is shorter.
pub struct SpiController;

impl SpiController {
    /// Checks that the driver is present; the reply reads with `to_result_unit`.
    pub fn driver_exists() -> (c: Command)
        ensures
            c == cmd(DRIVER_NUM, EXISTS, 0, 0),
    {
        Command::new(DRIVER_NUM, EXISTS, 0, 0)
    }

    /// Writes `len` bytes while reading as many.
    pub fn spi_controller_write_read_sync(w_buf_len: usize, r_buf_len: usize, len: u32) -> (r: Result<Transaction, ErrorCode>)
        ensures
            r is Err <==> (len > w_buf_len || len > r_buf_len),
            r matches Err(e) ==> e == ErrorCode::NoMem,
            r matches Ok(t) ==> t.is(
                seq![Share::AllowRw(ALLOW_RW_READ), Share::AllowRo(ALLOW_RO_WRITE), Share::Subscribe(SUBSCRIBE_COMPLETE)],
                Some(cmd(DRIVER_NUM, READ_WRITE_BYTES, len, 0)),
                Expect::Unit,
                Wait::YieldFirst,
            ),
    {
        if len as usize > w_buf_len || len as usize > r_buf_len {
            return Err(ErrorCode::NoMem);
        }
        Ok(Transaction::new(
            vec![Share::AllowRw(ALLOW_RW_READ), Share::AllowRo(ALLOW_RO_WRITE), Share::Subscribe(SUBSCRIBE_COMPLETE)],
            Some(Command::new(DRIVER_NUM, READ_WRITE_BYTES, len, 0)),
            Expect::Unit,
            Wait::YieldFirst,
        ))
    }

    /// Writes `len` bytes.
    pub fn spi_controller_write_sync(w_buf_len: usize, len: u32) -> (r: Result<Transaction, ErrorCode>)
        ensures
            r is Err <==> len > w_buf_len,
            r matches Err(e) ==> e == ErrorCode::NoMem,
            r matches Ok(t) ==> t.is(
                seq![Share::AllowRo(ALLOW_RO_WRITE), Share::Subscribe(SUBSCRIBE_COMPLETE)],
                Some(cmd(DRIVER_NUM, READ_WRITE_BYTES, len, 0)),
                Expect::Unit,
                Wait::YieldFirst,
            ),
    {
        if len as usize > w_buf_len {
            return Err(ErrorCode::NoMem);
        }
        Ok(Transaction::new(
            vec![Share::AllowRo(ALLOW_RO_WRITE), Share::Subscribe(SUBSCRIBE_COMPLETE)],
            Some(Command::new(DRIVER_NUM, READ_WRITE_BYTES, len, 0)),
            Expect::Unit,
            Wait::YieldFirst,
        ))
    }

    /// Reads `len` bytes.
    pub fn spi_controller_read_sync(r_buf_len: usize, len: u32) -> (r: Result<Transaction, ErrorCode>)
        ensures
            r is Err <==> len > r_buf_len,
            r matches Err(e) ==> e == ErrorCode::NoMem,
            r matches Ok(t) ==> t.is(
                seq![Share::AllowRw(ALLOW_RW_READ), Share::Subscribe(SUBSCRIBE_COMPLETE)],
                Some(cmd(DRIVER_NUM, READ_BYTES, len, 0)),
                Expect::Unit,
                Wait::YieldFirst,
            ),
    {
        if len as usize > r_buf_len {
            return Err(ErrorCode::NoMem);
        }
        Ok(Transaction::new(
            vec![Share::AllowRw(ALLOW_RW_READ), Share::Subscribe(SUBSCRIBE_COMPLETE)],
            Some(Command::new(DRIVER_NUM, READ_BYTES, len, 0)),
            Expect::Unit,
            Wait::YieldFirst,
        ))
    }

    /// Writes `len` bytes of a buffer and reads as many back into it.
    pub fn spi_controller_inplace_write_read_sync(r_buf_len: usize, len: u32) -> (r: Result<Transaction, ErrorCode>)
        ensures
            r is Err <==> len > r_buf_len,
            r matches Err(e) ==> e == ErrorCode::NoMem,
            r matches Ok(t) ==> t.is(
                seq![Share::AllowRw(ALLOW_RW_READ), Share::Subscribe(SUBSCRIBE_COMPLETE)],
                Some(cmd(DRIVER_NUM, INPLACE_READ_WRITE_BYTES, len, 0)),
                Expect::Unit,
                Wait::YieldFirst,
            ),
    {
        if len as usize > r_buf_len {
            return Err(ErrorCode::NoMem);
        }
        Ok(Transaction::new(
            vec![Share::AllowRw(ALLOW_RW_READ), Share::Subscribe(SUBSCRIBE_COMPLETE)],
            Some(Command::new(DRIVER_NUM, INPLACE_READ_WRITE_BYTES, len, 0)),
            Expect::Unit,
            Wait::YieldFirst,
        ))
    }

    /// A transfer's upcall carries the length transferred, which must be the
    /// length asked for, then the status.
    pub open spec fn upcall_len(o: Outcome<(u32, u32, u32)>, len: u32) -> bool {
        o matches Outcome::Done(_, Some(u)) ==> u.0 == len
    }

    /// The error of the call that failed, or the status of the upcall.
    pub fn transfer_outcome(o: Outcome<(u32, u32, u32)>, len: u32) -> (r: Result<(), ErrorCode>)
        requires
            o.waited(),
            Self::upcall_len(o, len),
        ensures
            r == (match o {
                Outcome::ShareFailed(e) => Err(e),
                Outcome::Failed(e) => Err(e),
                Outcome::Done(_, u) => ErrorCode::spec_status(u->Some_0.1),
            }),
    {
        match o {
            Outcome::ShareFailed(e) => Err(e),
            Outcome::Failed(e) => Err(e),
            Outcome::Done(_, Some((_, status, _))) => ErrorCode::status_to_result(status),
            Outcome::Done(_, None) => Err(ErrorCode::Fail),
        }
    }
}

} // verus!
