use vstd::prelude::*;
use crate::error_code::ErrorCode;
use crate::syscall::{cmd, Command, Expect, Outcome, Share, Transaction, Wait};

verus! {

pub const DRIVER_NUM: u32 = 0x22;

pub const EXISTS: u32 = 0;
pub const WRITE: u32 = 1;
pub const READ: u32 = 2;

pub const SUBSCRIBE_COMPLETE: u32 = 0;
pub const ALLOW_RO_WRITE: u32 = 1;
pub const ALLOW_RW_READ: u32 = 1;

/// System call configuration for `UartController`.
pub trait Config: crate::config::Config {}

impl<T: crate::config::Config> Config for T {}

/// The UART controller driver, for ports 0 and 1.
pub struct UartController;

impl UartController {
    /// Checks that the driver is present; the reply reads with `to_result_unit`.
    pub fn driver_exists() -> (c: Command)
        ensures
            c == cmd(DRIVER_NUM, EXISTS, 0, 0),
    {
        Command::new(DRIVER_NUM, EXISTS, 0, 0)
    }

    /// Only ports 0 and 1 are supported.
    pub fn is_supported_port(port: u32) -> (b: bool)
        ensures
            b == (port == 0 || port == 1),
    {
        port == 0 || port == 1
    }

    /// Writes `len` bytes to `port`: an unsupported port is `Invalid`, then a
    /// length beyond the buffer is `NoMem`, both before any system call.
    pub fn uart_controller_write_sync(port: u32, w_buf_len: usize, len: u32) -> (r: Result<Transaction, ErrorCode>)
        ensures
            r is Err <==> (!(port == 0 || port == 1) || len > w_buf_len),
            r matches Err(e) ==> e == (if !(port == 0 || port == 1) { ErrorCode::Invalid } else { ErrorCode::NoMem }),
            r matches Ok(t) ==> t.is(
                seq![Share::AllowRo(ALLOW_RO_WRITE), Share::Subscribe(SUBSCRIBE_COMPLETE)],
                Some(cmd(DRIVER_NUM, WRITE, len, port)),
                Expect::Unit,
                Wait::YieldFirst,
            ),
    {
        if !Self::is_supported_port(port) {
            return Err(ErrorCode::Invalid);
        }
        if len as usize > w_buf_len {
            return Err(ErrorCode::NoMem);
        }
        Ok(Transaction::new(
            vec![Share::AllowRo(ALLOW_RO_WRITE), Share::Subscribe(SUBSCRIBE_COMPLETE)],
            Some(Command::new(DRIVER_NUM, WRITE, len, port)),
            Expect::Unit,
            Wait::YieldFirst,
        ))
    }

    /// Reads `len` bytes from `port`, refused as for writes.
    pub fn uart_controller_read_sync(port: u32, r_buf_len: usize, len: u32) -> (r: Result<Transaction, ErrorCode>)
        ensures
            r is Err <==> (!(port == 0 || port == 1) || len > r_buf_len),
            r matches Err(e) ==> e == (if !(port == 0 || port == 1) { ErrorCode::Invalid } else { ErrorCode::NoMem }),
            r matches Ok(t) ==> t.is(
                seq![Share::AllowRw(ALLOW_RW_READ), Share::Subscribe(SUBSCRIBE_COMPLETE)],
                Some(cmd(DRIVER_NUM, READ, len, port)),
                Expect::Unit,
                Wait::YieldFirst,
            ),
    {
        if !Self::is_supported_port(port) {
            return Err(ErrorCode::Invalid);
        }
        if len as usize > r_buf_len {
            return Err(ErrorCode::NoMem);
        }
        Ok(Transaction::new(
            vec![Share::AllowRw(ALLOW_RW_READ), Share::Subscribe(SUBSCRIBE_COMPLETE)],
            Some(Command::new(DRIVER_NUM, READ, len, port)),
            Expect::Unit,
            Wait::YieldFirst,
        ))
    }

    /// A transfer's upcall carries the length transferred, which must be the
    /// length asked for, then the status.
    pub open spec fn upcall_len(o: Outcome<(u32, u32, u32)>, len: u32) -> bool {
        o matches Outcome::Done(_, Some(u)) ==> u.0 == len
    }

    /// The error of the call that failed, or the status of the upcall.
    pub fn transfer_outcome(o: Outcome<(u32, u32, u32)>, len: u32) -> (r: Result<(), ErrorCode>)
        requires
            o.waited(),
            Self::upcall_len(o, len),
        ensures
            r == (match o {
                Outcome::ShareFailed(e) => Err(e),
                Outcome::Failed(e) => Err(e),
                Outcome::Done(_, u) => ErrorCode::spec_status(u->Some_0.1),
            }),
    {
        match o {
            Outcome::ShareFailed(e) => Err(e),
            Outcome::Failed(e) => Err(e),
            Outcome::Done(_, Some((_, status, _))) => ErrorCode::status_to_result(status),
            Outcome::Done(_, None) => Err(ErrorCode::Fail),
        }
    }
}

} // verus!
