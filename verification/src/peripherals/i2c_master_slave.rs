use vstd::prelude::*;
use crate::error_code::ErrorCode;
use crate::syscall::{cmd, Command, Expect, Outcome, Share, Transaction, Wait};

verus! {

pub const DRIVER_NUM: u32 = 0x20006;

pub const EXISTS: u32 = 0;
pub const MASTER_WRITE: u32 = 1;
pub const MASTER_READ: u32 = 2;
pub const SLAVE_START_LISTEN: u32 = 3;
pub const SLAVE_READ_SEND: u32 = 4;
pub const SLAVE_SET_ADDR: u32 = 6;
pub const MASTER_WRITE_READ: u32 = 7;

/// Every operation of the driver subscribes to upcall 0.
pub const SUBSCRIBE: u32 = 0;

/// The numbers of the buffers that the driver keeps.
pub const BUFFER_MASTER_WRITE: u32 = 0;
pub const BUFFER_MASTER_READ: u32 = 1;
pub const BUFFER_SLAVE_READ: u32 = 2;
pub const BUFFER_SLAVE_WRITE: u32 = 3;

pub const ALLOW_RO_SLAVE_TX: u32 = 2;
pub const ALLOW_RW_SLAVE_RX: u32 = 3;

/// System call configuration for `I2CMasterSlave`.
pub trait Config: crate::config::Config {}

impl<T: crate::config::Config> Config for T {}

/// The first argument of a master write or read: the length in the upper
/// 16 bits, the address in the lower.
pub open spec fn len_addr_arg(addr: u16, len: u16) -> u32 {
    ((len as u32) << 16u32) | (addr as u32)
}

/// The first argument of a master write followed by a read: the write length
/// from bit 16, the read length from bit 8, the address from bit 0, the
/// fields or-ed together.
pub open spec fn write_read_arg(addr: u16, w_len: u16, r_len: u16) -> u32 {
    ((w_len as u32) << 16u32) | ((r_len as u32) << 8u32) | (addr as u32)
}

pub open spec fn spec_min(a: usize, b: usize) -> usize {
    if a <= b { a } else { b }
}

/// The I2C master and slave driver.
pub struct I2CMasterSlave;

impl I2CMasterSlave {
    /// Checks that the driver is present; the reply reads with `to_result_unit`.
    pub fn driver_exists() -> (c: Command)
        ensures
            c == cmd(DRIVER_NUM, EXISTS, 0, 0),
    {
        Command::new(DRIVER_NUM, EXISTS, 0, 0)
    }

    /// Writes `len` bytes of a buffer of `buffer_len` bytes to the slave at
    /// `addr`; a length beyond the buffer is `NoMem` before any system call.
    pub fn i2c_master_slave_write_sync(addr: u16, buffer_len: usize, len: u16) -> (r: Result<Transaction, ErrorCode>)
        ensures
            r is Err <==> len > buffer_len,
            r matches Err(e) ==> e == ErrorCode::NoMem,
            r matches Ok(t) ==> t.is(
                seq![Share::AllowRo(BUFFER_MASTER_WRITE), Share::Subscribe(SUBSCRIBE)],
                Some(cmd(DRIVER_NUM, MASTER_WRITE, len_addr_arg(addr, len), 0)),
                Expect::Unit,
                Wait::YieldFirst,
            ),
    {
        if len as usize > buffer_len {
            return Err(ErrorCode::NoMem);
        }
        let cmd_arg0: u32 = ((len as u32) << 16u32) | (addr as u32);
        Ok(Transaction::new(
            vec![Share::AllowRo(BUFFER_MASTER_WRITE), Share::Subscribe(SUBSCRIBE)],
            Some(Command::new(DRIVER_NUM, MASTER_WRITE, cmd_arg0, 0)),
            Expect::Unit,
            Wait::YieldFirst,
        ))
    }

    /// A master write's upcall carries 0, then the status.
    pub open spec fn upcall_from(o: Outcome<(u32, u32, u32)>, command: u32) -> bool {
        o matches Outcome::Done(_, Some(u)) ==> u.0 == command
    }

    /// The error of the call that failed, or the status of the upcall, its
    /// second value.
    pub fn i2c_master_slave_write_sync_outcome(o: Outcome<(u32, u32, u32)>) -> (r: Result<(), ErrorCode>)
        requires
            o.waited(),
            Self::upcall_from(o, 0),
        ensures
            r == (match o {
                Outcome::ShareFailed(e) => Err(e),
                Outcome::Failed(e) => Err(e),
                Outcome::Done(_, u) => ErrorCode::spec_status(u->Some_0.1),
            }),
    {
        match o {
            Outcome::ShareFailed(e) => Err(e),
            Outcome::Failed(e) => Err(e),
            Outcome::Done(_, Some((_, status, _))) => ErrorCode::status_to_result(status),
            Outcome::Done(_, None) => Err(ErrorCode::Fail),
        }
    }

    /// Reads `len` bytes from the slave at `addr` into a buffer of `buf_len`
    /// bytes; a length beyond the buffer is `NoMem`, and no bytes, before any
    /// system call.
    pub fn i2c_master_slave_read_sync(addr: u16, buf_len: usize, len: u16) -> (r: Result<Transaction, ErrorCode>)
        ensures
            r is Err <==> len > buf_len,
            r matches Err(e) ==> e == ErrorCode::NoMem,
            r matches Ok(t) ==> t.is(
                seq![Share::AllowRw(BUFFER_MASTER_READ), Share::Subscribe(SUBSCRIBE)],
                Some(cmd(DRIVER_NUM, MASTER_READ, len_addr_arg(addr, len), 0)),
                Expect::Unit,
                Wait::YieldFirst,
            ),
    {
        if len as usize > buf_len {
            return Err(ErrorCode::NoMem);
        }
        let cmd_arg0: u32 = ((len as u32) << 16u32) | (addr as u32);
        Ok(Transaction::new(
            vec![Share::AllowRw(BUFFER_MASTER_READ), Share::Subscribe(SUBSCRIBE)],
            Some(Command::new(DRIVER_NUM, MASTER_READ, cmd_arg0, 0)),
            Expect::Unit,
            Wait::YieldFirst,
        ))
    }

    /// The outcome of a read of `expected` bytes: on success the smaller of
    /// the buffer's length and the length asked for, as the kernel does not
    /// report the count; on any error no bytes.
    fn received(o: Outcome<(u32, u32, u32)>, expected: usize) -> (r: (usize, Result<(), ErrorCode>))
        requires
            o.waited(),
        ensures
            r == (match o {
                Outcome::ShareFailed(e) => (0usize, Err(e)),
                Outcome::Failed(e) => (0usize, Err(e)),
                Outcome::Done(_, u) => if u->Some_0.2 == 0 {
                    (expected, Ok::<(), ErrorCode>(()))
                } else {
                    (0usize, ErrorCode::spec_status(u->Some_0.2))
                },
            }),
    {
        match o {
            Outcome::ShareFailed(e) => (0, Err(e)),
            Outcome::Failed(e) => (0, Err(e)),
            Outcome::Done(_, Some((_, _, status))) => {
                let res = ErrorCode::status_to_result(status);
                if res.is_err() {
                    (0, res)
                } else {
                    (expected, res)
                }
            },
            Outcome::Done(_, None) => (0, Err(ErrorCode::Fail)),
        }
    }

    /// What a master read returns; its upcall carries 1, then a length that
    /// the kernel leaves unset, then the status.
    pub fn i2c_master_slave_read_sync_outcome(o: Outcome<(u32, u32, u32)>, buf_len: usize, len: u16) -> (r: (usize, Result<(), ErrorCode>))
        requires
            o.waited(),
            Self::upcall_from(o, 1),
        ensures
            r == (match o {
                Outcome::ShareFailed(e) => (0usize, Err(e)),
                Outcome::Failed(e) => (0usize, Err(e)),
                Outcome::Done(_, u) => if u->Some_0.2 == 0 {
                    (spec_min(buf_len, len as usize), Ok::<(), ErrorCode>(()))
                } else {
                    (0usize, ErrorCode::spec_status(u->Some_0.2))
                },
            }),
    {
        let expected = if buf_len <= len as usize { buf_len } else { len as usize };
        Self::received(o, expected)
    }

    /// A master write of `w_len` bytes followed by a read of `r_len` bytes.
    /// The kernel does both through the write buffer, so a read longer than
    /// that buffer is refused too; each refusal is `NoMem` before any system
    /// call.
    pub fn i2c_master_slave_write_read_sync(
        addr: u16,
        w_buf_len: usize,
        r_buf_len: usize,
        w_len: u16,
        r_len: u16,
    ) -> (r: Result<Transaction, ErrorCode>)
        ensures
            r is Err <==> (w_len > w_buf_len || r_len > r_buf_len || r_len > w_buf_len),
            r matches Err(e) ==> e == ErrorCode::NoMem,
            r matches Ok(t) ==> t.is(
                seq![
                    Share::AllowRw(BUFFER_MASTER_READ),
                    Share::AllowRo(BUFFER_MASTER_WRITE),
                    Share::Subscribe(SUBSCRIBE),
                ],
                Some(cmd(DRIVER_NUM, MASTER_WRITE_READ, write_read_arg(addr, w_len, r_len), 0)),
                Expect::Unit,
                Wait::YieldFirst,
            ),
    {
        if w_len as usize > w_buf_len || r_len as usize > r_buf_len {
            return Err(ErrorCode::NoMem);
        }
        if r_len as usize > w_buf_len {
            return Err(ErrorCode::NoMem);
        }
        let cmd_arg0: u32 = ((w_len as u32) << 16u32) | ((r_len as u32) << 8u32) | (addr as u32);
        Ok(Transaction::new(
            vec![
                Share::AllowRw(BUFFER_MASTER_READ),
                Share::AllowRo(BUFFER_MASTER_WRITE),
                Share::Subscribe(SUBSCRIBE),
            ],
            Some(Command::new(DRIVER_NUM, MASTER_WRITE_READ, cmd_arg0, 0)),
            Expect::Unit,
            Wait::YieldFirst,
        ))
    }

    /// What a write followed by a read returns; its upcall carries the
    /// command number, then a length the kernel leaves unset, then the status.
    pub fn i2c_master_slave_write_read_sync_outcome(o: Outcome<(u32, u32, u32)>, r_buf_len: usize, r_len: u16) -> (r: (usize, Result<(), ErrorCode>))
        requires
            o.waited(),
            Self::upcall_from(o, MASTER_WRITE_READ),
        ensures
            r == (match o {
                Outcome::ShareFailed(e) => (0usize, Err(e)),
                Outcome::Failed(e) => (0usize, Err(e)),
                Outcome::Done(_, u) => if u->Some_0.2 == 0 {
                    (spec_min(r_buf_len, r_len as usize), Ok::<(), ErrorCode>(()))
                } else {
                    (0usize, ErrorCode::spec_status(u->Some_0.2))
                },
            }),
    {
        let expected = if r_buf_len <= r_len as usize { r_buf_len } else { r_len as usize };
        Self::received(o, expected)
    }

    /// Sets the address this device answers to as a slave. Without the R/W
    /// bit an address is at most 0x7f; a higher one is `Invalid`.
    pub fn i2c_master_slave_set_slave_address(addr: u8) -> (r: Result<Command, ErrorCode>)
        ensures
            r is Err <==> addr > 0x7f,
            r matches Err(e) ==> e == ErrorCode::Invalid,
            r matches Ok(c) ==> c == cmd(DRIVER_NUM, SLAVE_SET_ADDR, addr as u32, 0),
    {
        if addr > 0x7f {
            return Err(ErrorCode::Invalid);
        }
        Ok(Command::new(DRIVER_NUM, SLAVE_SET_ADDR, addr as u32, 0))
    }

    /// Listens for a write from a master into the shared buffer.
    pub fn i2c_master_slave_write_recv_sync() -> (t: Transaction)
        ensures
            t.is(
                seq![Share::AllowRw(ALLOW_RW_SLAVE_RX), Share::Subscribe(SUBSCRIBE)],
                Some(cmd(DRIVER_NUM, SLAVE_START_LISTEN, 0, 0)),
                Expect::Unit,
                Wait::YieldFirst,
            ),
    {
        Transaction::new(
            vec![Share::AllowRw(ALLOW_RW_SLAVE_RX), Share::Subscribe(SUBSCRIBE)],
            Some(Command::new(DRIVER_NUM, SLAVE_START_LISTEN, 0, 0)),
            Expect::Unit,
            Wait::YieldFirst,
        )
    }

    /// The count of a slave transfer: the upcall's second value when its
    /// status, the third, is 0; no bytes and the error otherwise.
    fn transferred(o: Outcome<(u32, u32, u32)>) -> (r: (usize, Result<(), ErrorCode>))
        requires
            o.waited(),
        ensures
            r == (match o {
                Outcome::ShareFailed(e) => (0usize, Err(e)),
                Outcome::Failed(e) => (0usize, Err(e)),
                Outcome::Done(_, u) => if u->Some_0.2 == 0 {
                    (u->Some_0.1 as usize, Ok::<(), ErrorCode>(()))
                } else {
                    (0usize, ErrorCode::spec_status(u->Some_0.2))
                },
            }),
    {
        match o {
            Outcome::ShareFailed(e) => (0, Err(e)),
            Outcome::Failed(e) => (0, Err(e)),
            Outcome::Done(_, Some((_, count, status))) => {
                let res = ErrorCode::status_to_result(status);
                if res.is_err() {
                    (0, res)
                } else {
                    (count as usize, res)
                }
            },
            Outcome::Done(_, None) => (0, Err(ErrorCode::Fail)),
        }
    }

    /// What listening returns; the upcall carries the command number, the
    /// bytes received and the status.
    pub fn i2c_master_slave_write_recv_sync_outcome(o: Outcome<(u32, u32, u32)>) -> (r: (usize, Result<(), ErrorCode>))
        requires
            o.waited(),
            Self::upcall_from(o, SLAVE_START_LISTEN),
        ensures
            r == (match o {
                Outcome::ShareFailed(e) => (0usize, Err(e)),
                Outcome::Failed(e) => (0usize, Err(e)),
                Outcome::Done(_, u) => if u->Some_0.2 == 0 {
                    (u->Some_0.1 as usize, Ok::<(), ErrorCode>(()))
                } else {
                    (0usize, ErrorCode::spec_status(u->Some_0.2))
                },
            }),
    {
        Self::transferred(o)
    }

    /// Offers up to `len` bytes of a buffer of `buf_len` bytes to a master's
    /// read; a length beyond the buffer is `Invalid` before any system call.
    pub fn i2c_master_slave_read_send_sync(buf_len: usize, len: usize) -> (r: Result<Transaction, ErrorCode>)
        ensures
            r is Err <==> len > buf_len,
            r matches Err(e) ==> e == ErrorCode::Invalid,
            r matches Ok(t) ==> t.is(
                seq![Share::AllowRo(ALLOW_RO_SLAVE_TX), Share::Subscribe(SUBSCRIBE)],
                Some(cmd(DRIVER_NUM, SLAVE_READ_SEND, len as u32, 0)),
                Expect::Unit,
                Wait::YieldFirst,
            ),
    {
        if len > buf_len {
            return Err(ErrorCode::Invalid);
        }
        Ok(Transaction::new(
            vec![Share::AllowRo(ALLOW_RO_SLAVE_TX), Share::Subscribe(SUBSCRIBE)],
            Some(Command::new(DRIVER_NUM, SLAVE_READ_SEND, len as u32, 0)),
            Expect::Unit,
            Wait::YieldFirst,
        ))
    }

    /// What offering returns; the upcall carries the command number, the bytes
    /// sent and the status.
    pub fn i2c_master_slave_read_send_sync_outcome(o: Outcome<(u32, u32, u32)>) -> (r: (usize, Result<(), ErrorCode>))
        requires
            o.waited(),
            Self::upcall_from(o, SLAVE_READ_SEND),
        ensures
            r == (match o {
                Outcome::ShareFailed(e) => (0usize, Err(e)),
                Outcome::Failed(e) => (0usize, Err(e)),
                Outcome::Done(_, u) => if u->Some_0.2 == 0 {
                    (u->Some_0.1 as usize, Ok::<(), ErrorCode>(()))
                } else {
                    (0usize, ErrorCode::spec_status(u->Some_0.2))
                },
            }),
    {
        Self::transferred(o)
    }
}

} // verus!
