use vstd::prelude::*;
use crate::command_return::{CommandReturn, SUCCESS_U32};
use crate::error_code::ErrorCode;
use crate::syscall::{cmd, spec_value_or, value_or, Command, Expect, Outcome, Share, Transaction, Wait};

verus! {

pub const DRIVER_NUM: u32 = 0x5;

pub const EXISTS: u32 = 0;
pub const SINGLE_SAMPLE: u32 = 1;
pub const GET_RES_BITS: u32 = 101;
pub const GET_VOLTAGE_REF: u32 = 102;

/// The analog-to-digital converter driver.
pub struct Adc;

impl Adc {
    /// Checks that the driver is present.
    pub fn driver_exists() -> (c: Command)
        ensures
            c == cmd(DRIVER_NUM, EXISTS, 0, 0),
    {
        Command::new(DRIVER_NUM, EXISTS, 0, 0)
    }

    /// The driver answers its presence check with the number of channels, so
    /// presence is a `SUCCESS_U32` reply; the number itself is dropped.
    pub fn driver_exists_reply(reply: &CommandReturn) -> (r: Result<(), ErrorCode>)
        requires
            reply.wf(),
        ensures
            r == (match reply.spec_to_result_u32() {
                Ok(_) => Ok::<(), ErrorCode>(()),
                Err(e) => Err(e),
            }),
            r is Ok <==> reply.return_variant == SUCCESS_U32,
    {
        match reply.to_result_u32() {
            Ok(_) => Ok(()),
            Err(e) => Err(e),
        }
    }

    /// Starts one sample; the reply reads with `to_result_unit`.
    pub fn read_single_sample() -> (c: Command)
        ensures
            c == cmd(DRIVER_NUM, SINGLE_SAMPLE, 0, 0),
    {
        Command::new(DRIVER_NUM, SINGLE_SAMPLE, 0, 0)
    }

    /// A synchronous sample: subscribes, starts it, waits for the upcall.
    pub fn read_single_sample_sync() -> (t: Transaction)
        ensures
            t.is(seq![Share::Subscribe(0)], Some(cmd(DRIVER_NUM, SINGLE_SAMPLE, 0, 0)), Expect::Unit, Wait::PollFirst),
    {
        Transaction::subscribe_and_wait(0, Self::read_single_sample(), Wait::PollFirst)
    }

    /// The sample, the error of the call that failed, or `Busy` if no
    /// sample was kept.
    pub fn read_single_sample_sync_outcome(o: Outcome<u16>) -> (r: Result<u16, ErrorCode>)
        ensures
            r == spec_value_or(o, ErrorCode::Busy),
    {
        value_or(o, ErrorCode::Busy)
    }

    /// Asks for the number of resolution bits; the reply reads with
    /// `to_result_u32`.
    pub fn get_resolution_bits() -> (c: Command)
        ensures
            c == cmd(DRIVER_NUM, GET_RES_BITS, 0, 0),
    {
        Command::new(DRIVER_NUM, GET_RES_BITS, 0, 0)
    }

    /// Asks for the reference voltage in millivolts; the reply reads with
    /// `to_result_u32`.
    pub fn get_reference_voltage_mv() -> (c: Command)
        ensures
            c == cmd(DRIVER_NUM, GET_VOLTAGE_REF, 0, 0),
    {
        Command::new(DRIVER_NUM, GET_VOLTAGE_REF, 0, 0)
    }
}

/// Calls its closure with each sample, cut to 16 bits.
pub struct ADCListener<F: Fn(u16)>(pub F);

impl<F: Fn(u16)> ADCListener<F> {
    /// The sample is the upcall's first argument.
    pub fn upcall(&self, adc_val: u32, arg1: u32, arg2: u32)
        requires
            self.0.requires(((adc_val % 0x1_0000) as u16,)),
        ensures
            self.0.ensures(((adc_val % 0x1_0000) as u16,), ()),
    {
        let v = (adc_val & 0xffffu32) as u16;
        assert((adc_val & 0xffffu32) as u16 == (adc_val % 0x1_0000) as u16) by (bit_vector);
        (self.0)(v)
    }
}

} // verus!
