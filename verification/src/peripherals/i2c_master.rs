use vstd::prelude::*;
use crate::error_code::ErrorCode;
use crate::syscall::{cmd, Command, Expect, Outcome, Share, Transaction, Wait};

verus! {

pub const DRIVER_NUM: u32 = 0x20003;

pub const EXISTS: u32 = 0;
pub const MASTER_WRITE: u32 = 1;
pub const MASTER_READ: u32 = 2;
pub const MASTER_WRITE_READ: u32 = 3;

pub const SUBSCRIBE_MASTER: u32 = 0;
pub const ALLOW_RW_MASTER: u32 = 1;

/// System call configuration for `I2CMaster`.
pub trait Config: crate::config::Config {}

impl<T: crate::config::Config> Config for T {}

/// The first argument of a write followed by a read: the write length above
/// the address, from bit 8 on.
pub open spec fn write_read_arg(addr: u16, w_len: u16) -> u32 {
    ((w_len as u32) << 8u32) | (addr as u32)
}

/// The I2C master driver.
pub struct I2CMaster;

impl I2CMaster {
    /// Checks that the driver is present; the reply reads with `to_result_unit`.
    pub fn driver_exists() -> (c: Command)
        ensures
            c == cmd(DRIVER_NUM, EXISTS, 0, 0),
    {
        Command::new(DRIVER_NUM, EXISTS, 0, 0)
    }

    /// The shares and wait of every transfer: the buffer, then the upcall.
    fn transfer(command: Command) -> (t: Transaction)
        ensures
            t.is(seq![Share::AllowRw(ALLOW_RW_MASTER), Share::Subscribe(SUBSCRIBE_MASTER)], Some(command), Expect::Unit, Wait::YieldFirst),
    {
        Transaction::new(
            vec![Share::AllowRw(ALLOW_RW_MASTER), Share::Subscribe(SUBSCRIBE_MASTER)],
            Some(command),
            Expect::Unit,
            Wait::YieldFirst,
        )
    }

    /// A write of `w_len` bytes followed by a read of `r_len` bytes, in a
    /// buffer of `buf_len` bytes; either length beyond the buffer is `NoMem`
    /// before any system call. The driver is asked with its write-then-read
    /// command.
    pub fn i2c_master_write_read_sync(addr: u16, buf_len: usize, w_len: u16, r_len: u16) -> (r: Result<Transaction, ErrorCode>)
        ensures
            r is Err <==> w_len > buf_len || r_len > buf_len,
            r matches Err(e) ==> e == ErrorCode::NoMem,
            r matches Ok(t) ==> t.is(
                seq![Share::AllowRw(ALLOW_RW_MASTER), Share::Subscribe(SUBSCRIBE_MASTER)],
                Some(cmd(DRIVER_NUM, MASTER_WRITE_READ, write_read_arg(addr, w_len), r_len as u32)),
                Expect::Unit,
                Wait::YieldFirst,
            ),
    {
        if w_len as usize > buf_len || r_len as usize > buf_len {
            return Err(ErrorCode::NoMem);
        }
        let cmd_arg0: u32 = ((w_len as u32) << 8u32) | (addr as u32);
        Ok(Self::transfer(Command::new(DRIVER_NUM, MASTER_WRITE_READ, cmd_arg0, r_len as u32)))
    }

    /// A write of `len` bytes to the device at `addr`.
    pub fn i2c_master_write_sync(addr: u16, len: u16) -> (t: Transaction)
        ensures
            t.is(
                seq![Share::AllowRw(ALLOW_RW_MASTER), Share::Subscribe(SUBSCRIBE_MASTER)],
                Some(cmd(DRIVER_NUM, MASTER_WRITE, addr as u32, len as u32)),
                Expect::Unit,
                Wait::YieldFirst,
            ),
    {
        Self::transfer(Command::new(DRIVER_NUM, MASTER_WRITE, addr as u32, len as u32))
    }

    /// A read of `len` bytes from the device at `addr`.
    pub fn i2c_master_read_sync(addr: u16, len: u16) -> (t: Transaction)
        ensures
            t.is(
                seq![Share::AllowRw(ALLOW_RW_MASTER), Share::Subscribe(SUBSCRIBE_MASTER)],
                Some(cmd(DRIVER_NUM, MASTER_READ, addr as u32, len as u32)),
                Expect::Unit,
                Wait::YieldFirst,
            ),
    {
        Self::transfer(Command::new(DRIVER_NUM, MASTER_READ, addr as u32, len as u32))
    }

    /// Every transfer's upcall carries 0, then the status.
    pub open spec fn upcall_ok(o: Outcome<(u32, u32, u32)>) -> bool {
        o matches Outcome::Done(_, Some(u)) ==> u.0 == 0
    }

    /// The error of the call that failed, or the status that the upcall
    /// reports.
    pub fn transfer_outcome(o: Outcome<(u32, u32, u32)>) -> (r: Result<(), ErrorCode>)
        requires
            o.waited(),
            Self::upcall_ok(o),
        ensures
            r == (match o {
                Outcome::ShareFailed(e) => Err(e),
                Outcome::Failed(e) => Err(e),
                Outcome::Done(_, u) => ErrorCode::spec_status(u->Some_0.1),
            }),
    {
        match o {
            Outcome::ShareFailed(e) => Err(e),
            Outcome::Failed(e) => Err(e),
            Outcome::Done(_, Some((_, status, _))) => ErrorCode::status_to_result(status),
            Outcome::Done(_, None) => Err(ErrorCode::Fail),
        }
    }
}

} // verus!
