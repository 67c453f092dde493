pub mod rx;

use vstd::prelude::*;
use crate::command_return::{join_u64, CommandReturn};
use crate::error_code::ErrorCode;
use crate::syscall::{cmd, completion, spec_completion, Command, Expect, Outcome, Share, Transaction, Wait};

pub use rx::{Frame, RxOperator, RxRingBuffer, RxSingleBufferOperator};

verus! {

pub const DRIVER_NUM: u32 = 0x30001;

pub const EXISTS: u32 = 0;
pub const STATUS: u32 = 1;
pub const SET_SHORT_ADDR: u32 = 2;
pub const SET_PAN: u32 = 4;
pub const SET_CHAN: u32 = 5;
pub const SET_TX_PWR: u32 = 6;
pub const COMMIT_CFG: u32 = 7;
pub const GET_SHORT_ADDR: u32 = 8;
pub const GET_PAN: u32 = 10;
pub const GET_CHAN: u32 = 11;
pub const GET_TX_PWR: u32 = 12;
pub const TRANSMIT: u32 = 27;
pub const SET_LONG_ADDR: u32 = 28;
pub const GET_LONG_ADDR: u32 = 29;
pub const TURN_ON: u32 = 30;
pub const TURN_OFF: u32 = 31;

/// Frame received.
pub const SUBSCRIBE_FRAME_RECEIVED: u32 = 0;
/// Frame transmitted.
pub const SUBSCRIBE_FRAME_TRANSMITTED: u32 = 1;
/// The read-only buffer that holds the frame to transmit.
pub const ALLOW_RO_WRITE: u32 = 0;
/// The read-write buffer that receives frames.
pub const ALLOW_RW_READ: u32 = 0;

/// System call configuration for `Ieee802154`.
pub trait Config: crate::config::Config {}

impl<T: crate::config::Config> Config for T {}

/// A 16-bit value as the driver stores it: one more than the value itself,
/// so that it is positive.
pub open spec fn plus_one(v: u16) -> u32 {
    (v + 1) as u32
}

/// The 16-bit value the driver reports, which stores one more than it: the
/// register less one, cut to 16 bits.
pub open spec fn minus_one(reg: u32) -> u16 {
    ((reg - 1) % 0x1_0000) as u16
}

/// A signed power level as the register holds it: its two's complement in 32
/// bits.
pub open spec fn power_to_reg(power: i8) -> u32 {
    if power >= 0 { power as u32 } else { (power + 0x1_0000_0000) as u32 }
}

/// The power level a register reports: its low 8 bits read as two's
/// complement.
pub open spec fn reg_to_power(reg: u32) -> i8 {
    let b = reg % 256;
    if b < 128 { b as i8 } else { (b - 256) as i8 }
}

fn low_16(reg: u32) -> (v: u16)
    ensures
        v as int == reg % 0x1_0000,
{
    let v = (reg & 0xffffu32) as u16;
    assert((reg & 0xffffu32) as u16 as int == reg % 0x1_0000) by (bit_vector);
    v
}

/// The raw IEEE 802.15.4 driver: it passes frames to and from the kernel's
/// radio driver.
pub struct Ieee802154;

impl Ieee802154 {
    /// Checks that the driver is present: it is when the reply `is_success`.
    pub fn driver_exists() -> (c: Command)
        ensures
            c == cmd(DRIVER_NUM, EXISTS, 0, 0),
    {
        Command::new(DRIVER_NUM, EXISTS, 0, 0)
    }

    /// Asks whether the radio is on: it is when the reply `is_success`.
    pub fn is_on() -> (c: Command)
        ensures
            c == cmd(DRIVER_NUM, STATUS, 0, 0),
    {
        Command::new(DRIVER_NUM, STATUS, 0, 0)
    }

    /// Turns the radio on; the reply reads with `to_result_unit`.
    pub fn radio_on() -> (c: Command)
        ensures
            c == cmd(DRIVER_NUM, TURN_ON, 0, 0),
    {
        Command::new(DRIVER_NUM, TURN_ON, 0, 0)
    }

    /// Turns the radio off; the reply reads with `to_result_unit`.
    pub fn radio_off() -> (c: Command)
        ensures
            c == cmd(DRIVER_NUM, TURN_OFF, 0, 0),
    {
        Command::new(DRIVER_NUM, TURN_OFF, 0, 0)
    }

    /// Sets the short address, which the driver takes one higher; setting
    /// it cannot fail, so the reply is ignored.
    pub fn set_address_short(short_addr: u16) -> (c: Command)
        ensures
            c == cmd(DRIVER_NUM, SET_SHORT_ADDR, plus_one(short_addr), 0),
    {
        Command::new(DRIVER_NUM, SET_SHORT_ADDR, short_addr as u32 + 1, 0)
    }

    /// Sets the long address, its low half in the first argument and its high
    /// half in the second; the reply is ignored.
    pub fn set_address_long(long_addr: u64) -> (c: Command)
        ensures
            c.driver_num == DRIVER_NUM,
            c.command_num == SET_LONG_ADDR,
            join_u64(c.arg0, c.arg1) == long_addr as int,
    {
        let addr_lower: u32 = (long_addr & 0xffff_ffffu64) as u32;
        let addr_upper: u32 = (long_addr >> 32u64) as u32;
        assert(addr_lower as int + addr_upper as int * 0x1_0000_0000 == long_addr as int) by (bit_vector)
            requires
                addr_lower == (long_addr & 0xffff_ffffu64) as u32,
                addr_upper == (long_addr >> 32u64) as u32,
        ;
        Command::new(DRIVER_NUM, SET_LONG_ADDR, addr_lower, addr_upper)
    }

    /// Sets the PAN id, which the driver takes one higher; the reply is
    /// ignored.
    pub fn set_pan(pan: u16) -> (c: Command)
        ensures
            c == cmd(DRIVER_NUM, SET_PAN, plus_one(pan), 0),
    {
        Command::new(DRIVER_NUM, SET_PAN, pan as u32 + 1, 0)
    }

    /// Sets the channel; the reply reads with `to_result_unit`.
    pub fn set_channel(chan: u8) -> (c: Command)
        ensures
            c == cmd(DRIVER_NUM, SET_CHAN, chan as u32, 0),
    {
        Command::new(DRIVER_NUM, SET_CHAN, chan as u32, 0)
    }

    /// Sets the transmission power, sign-extended to 32 bits; the reply reads
    /// with `to_result_unit`.
    pub fn set_tx_power(power: i8) -> (c: Command)
        ensures
            c == cmd(DRIVER_NUM, SET_TX_PWR, power_to_reg(power), 0),
    {
        let reg = power as i32 as u32;
        assert(reg == (if power >= 0 { power as u32 } else { (power + 0x1_0000_0000) as u32 })) by (bit_vector)
            requires
                reg == power as i32 as u32,
        ;
        Command::new(DRIVER_NUM, SET_TX_PWR, reg, 0)
    }

    /// Commits the configuration; the reply is ignored.
    pub fn commit_config() -> (c: Command)
        ensures
            c == cmd(DRIVER_NUM, COMMIT_CFG, 0, 0),
    {
        Command::new(DRIVER_NUM, COMMIT_CFG, 0, 0)
    }

    /// Asks for the short address.
    pub fn get_address_short() -> (c: Command)
        ensures
            c == cmd(DRIVER_NUM, GET_SHORT_ADDR, 0, 0),
    {
        Command::new(DRIVER_NUM, GET_SHORT_ADDR, 0, 0)
    }

    /// The short address a reply reports: the register, which must not be
    /// 0, less one, cut to 16 bits.
    pub fn get_address_short_reply(reply: &CommandReturn) -> (r: Result<u16, ErrorCode>)
        requires
            reply.wf(),
            reply.spec_to_result_u32() matches Ok(v) ==> v != 0,
        ensures
            r == (match reply.spec_to_result_u32() {
                Ok(v) => Ok(minus_one(v)),
                Err(e) => Err::<u16, ErrorCode>(e),
            }),
    {
        match reply.to_result_u32() {
            Ok(addr) => Ok(low_16(addr - 1)),
            Err(e) => Err(e),
        }
    }

    /// Asks for the long address; the reply reads with `to_result_u64`.
    pub fn get_address_long() -> (c: Command)
        ensures
            c == cmd(DRIVER_NUM, GET_LONG_ADDR, 0, 0),
    {
        Command::new(DRIVER_NUM, GET_LONG_ADDR, 0, 0)
    }

    /// Asks for the PAN id.
    pub fn get_pan() -> (c: Command)
        ensures
            c == cmd(DRIVER_NUM, GET_PAN, 0, 0),
    {
        Command::new(DRIVER_NUM, GET_PAN, 0, 0)
    }

    /// The PAN id a reply reports: the register, which must not be 0, less
    /// one, cut to 16 bits.
    pub fn get_pan_reply(reply: &CommandReturn) -> (r: Result<u16, ErrorCode>)
        requires
            reply.wf(),
            reply.spec_to_result_u32() matches Ok(v) ==> v != 0,
        ensures
            r == (match reply.spec_to_result_u32() {
                Ok(v) => Ok(minus_one(v)),
                Err(e) => Err::<u16, ErrorCode>(e),
            }),
    {
        match reply.to_result_u32() {
            Ok(pan) => Ok(low_16(pan - 1)),
            Err(e) => Err(e),
        }
    }

    /// Asks for the channel.
    pub fn get_channel() -> (c: Command)
        ensures
            c == cmd(DRIVER_NUM, GET_CHAN, 0, 0),
    {
        Command::new(DRIVER_NUM, GET_CHAN, 0, 0)
    }

    /// The channel a reply reports: the register's low 8 bits.
    pub fn get_channel_reply(reply: &CommandReturn) -> (r: Result<u8, ErrorCode>)
        requires
            reply.wf(),
        ensures
            r == (match reply.spec_to_result_u32() {
                Ok(v) => Ok((v % 256) as u8),
                Err(e) => Err::<u8, ErrorCode>(e),
            }),
    {
        match reply.to_result_u32() {
            Ok(chan) => {
                let c = (chan & 0xffu32) as u8;
                assert((chan & 0xffu32) as u8 == (chan % 256) as u8) by (bit_vector);
                Ok(c)
            },
            Err(e) => Err(e),
        }
    }

    /// Asks for the transmission power.
    pub fn get_tx_power() -> (c: Command)
        ensures
            c == cmd(DRIVER_NUM, GET_TX_PWR, 0, 0),
    {
        Command::new(DRIVER_NUM, GET_TX_PWR, 0, 0)
    }

    /// The power a reply reports: the register's low 8 bits, signed.
    pub fn get_tx_power_reply(reply: &CommandReturn) -> (r: Result<i8, ErrorCode>)
        requires
            reply.wf(),
        ensures
            r == (match reply.spec_to_result_u32() {
                Ok(v) => Ok(reg_to_power(v)),
                Err(e) => Err::<i8, ErrorCode>(e),
            }),
    {
        match reply.to_result_u32() {
            Ok(power) => {
                let p = power as i32 as i8;
                assert(p == (if power % 256 < 128 { (power % 256) as i8 } else { ((power % 256) - 256) as i8 })) by (bit_vector)
                    requires
                        p == power as i32 as i8,
                ;
                Ok(p)
            },
            Err(e) => Err(e),
        }
    }

    /// Transmits a frame: shares it, subscribes to the transmission upcall,
    /// starts the transmission and yields until the upcall.
    pub fn transmit_frame() -> (t: Transaction)
        ensures
            t.is(
                seq![Share::AllowRo(ALLOW_RO_WRITE), Share::Subscribe(SUBSCRIBE_FRAME_TRANSMITTED)],
                Some(cmd(DRIVER_NUM, TRANSMIT, 0, 0)),
                Expect::Unit,
                Wait::YieldFirst,
            ),
    {
        Transaction::new(
            vec![Share::AllowRo(ALLOW_RO_WRITE), Share::Subscribe(SUBSCRIBE_FRAME_TRANSMITTED)],
            Some(Command::new(DRIVER_NUM, TRANSMIT, 0, 0)),
            Expect::Unit,
            Wait::YieldFirst,
        )
    }

    /// The error of the call that failed, or success once the frame went out.
    pub fn transmit_frame_outcome(o: Outcome<u32>) -> (r: Result<(), ErrorCode>)
        ensures
            r == spec_completion(o),
    {
        completion(o)
    }

    /// Waits for a frame: shares the ring buffer, subscribes to the reception
    /// upcall and yields until it comes. There is no command.
    pub fn receive_frame_single_buf() -> (t: Transaction)
        ensures
            t.is(
                seq![Share::AllowRw(ALLOW_RW_READ), Share::Subscribe(SUBSCRIBE_FRAME_RECEIVED)],
                None,
                Expect::Unit,
                Wait::YieldFirst,
            ),
    {
        Transaction::new(
            vec![Share::AllowRw(ALLOW_RW_READ), Share::Subscribe(SUBSCRIBE_FRAME_RECEIVED)],
            None,
            Expect::Unit,
            Wait::YieldFirst,
        )
    }
}

/// Reading the short address or the PAN id back gives what was set: the
/// driver stores the register that the setter sent, which is never 0.
pub proof fn lemma_short_value_round_trip(v: u16)
    ensures
        plus_one(v) != 0,
        minus_one(plus_one(v)) == v,
{
}

/// Reading the channel back gives what was set.
pub proof fn lemma_channel_round_trip(chan: u8)
    ensures
        ((chan as u32) % 256) as u8 == chan,
{
}

/// Reading the transmission power back gives what was set.
pub proof fn lemma_tx_power_round_trip(power: i8)
    ensures
        reg_to_power(power_to_reg(power)) == power,
{
}

/// Reading the long address back gives what was set: the two halves that the
/// setter sends join into the address again.
pub proof fn lemma_long_address_round_trip(long_addr: u64, c: Command)
    requires
        c.command_num == SET_LONG_ADDR,
        join_u64(c.arg0, c.arg1) == long_addr as int,
    ensures
        (CommandReturn { return_variant: crate::command_return::SUCCESS_U64, r1: c.arg0, r2: c.arg1, r3: 0 }).spec_to_result_u64()
            == Ok::<int, ErrorCode>(long_addr as int),
{
}

} // verus!
