use vstd::prelude::*;
use crate::command_return::CommandReturn;
use crate::error_code::ErrorCode;
use crate::syscall::{cmd, spec_value_else, value_else, Command, Expect, Outcome, Share, Transaction, Wait};

verus! {

pub const DRIVER_NUM: u32 = 0x60000;

pub const EXISTS: u32 = 0;
pub const SINGLE_SAMPLE: u32 = 1;
pub const REPEAT_SINGLE_SAMPLE: u32 = 2;
pub const MULTIPLE_SAMPLE: u32 = 3;
pub const CONTINUOUS_BUFF_SAMPLE: u32 = 4;
pub const STOP_SAMPLE: u32 = 5;
pub const GET_RES_BITS: u32 = 101;
pub const GET_VOLTAGE_REF: u32 = 102;

/// The analog-to-digital converter driver.
pub struct Adc;

impl Adc {
    /// Checks that the driver is present; the reply reads with `to_result_unit`.
    pub fn driver_exists() -> (c: Command)
        ensures
            c == cmd(DRIVER_NUM, EXISTS, 0, 0),
    {
        Command::new(DRIVER_NUM, EXISTS, 0, 0)
    }

    /// A synchronous conversion: subscribes the listener, shares an empty
    /// buffer, starts one sample, and waits for the upcall.
    pub fn sample() -> (t: Transaction)
        ensures
            t.is(
                seq![Share::Subscribe(0), Share::AllowRw(0)],
                Some(cmd(DRIVER_NUM, SINGLE_SAMPLE, 0, 0)),
                Expect::Unit,
                Wait::PollFirst,
            ),
    {
        Transaction::new(
            vec![Share::Subscribe(0), Share::AllowRw(0)],
            Some(Command::new(DRIVER_NUM, SINGLE_SAMPLE, 0, 0)),
            Expect::Unit,
            Wait::PollFirst,
        )
    }

    /// The sampled value, or `Fail` whenever no sample came, whatever call
    /// failed.
    pub fn sample_outcome(o: Outcome<u32>) -> (r: Result<u32, ErrorCode>)
        ensures
            r == spec_value_else(o, ErrorCode::Fail),
    {
        value_else(o, ErrorCode::Fail)
    }

    /// Asks for the number of resolution bits.
    pub fn get_resolution_bits() -> (c: Command)
        ensures
            c == cmd(DRIVER_NUM, GET_RES_BITS, 0, 0),
    {
        Command::new(DRIVER_NUM, GET_RES_BITS, 0, 0)
    }

    /// The reply gives the value that this driver keeps for the bits, which
    /// it never updates from the reply: 0 on success, `Fail` otherwise.
    pub fn get_resolution_bits_reply(reply: &CommandReturn) -> (r: Result<u32, ErrorCode>)
        requires
            reply.wf(),
        ensures
            r == (if reply.spec_to_result_unit() is Ok {
                Ok::<u32, ErrorCode>(0)
            } else {
                Err(ErrorCode::Fail)
            }),
    {
        match reply.to_result_unit() {
            Ok(()) => Ok(0),
            Err(_) => Err(ErrorCode::Fail),
        }
    }

    /// Asks for the reference voltage in millivolts.
    pub fn get_reference_voltage_mv() -> (c: Command)
        ensures
            c == cmd(DRIVER_NUM, GET_VOLTAGE_REF, 0, 0),
    {
        Command::new(DRIVER_NUM, GET_VOLTAGE_REF, 0, 0)
    }

    /// As for the resolution bits: 0 on success, `Fail` otherwise.
    pub fn get_reference_voltage_mv_reply(reply: &CommandReturn) -> (r: Result<u32, ErrorCode>)
        requires
            reply.wf(),
        ensures
            r == (if reply.spec_to_result_unit() is Ok {
                Ok::<u32, ErrorCode>(0)
            } else {
                Err(ErrorCode::Fail)
            }),
    {
        match reply.to_result_unit() {
            Ok(()) => Ok(0),
            Err(_) => Err(ErrorCode::Fail),
        }
    }
}

/// Calls its closure with each converted value.
pub struct ADCListener<F: Fn(u32)>(pub F);

impl<F: Fn(u32)> ADCListener<F> {
    /// The converted value is the upcall's first argument.
    pub fn upcall(&self, adc_val: u32, state: u32, arg2: u32)
        requires
            self.0.requires((adc_val,)),
        ensures
            self.0.ensures((adc_val,), ()),
    {
        (self.0)(adc_val)
    }
}

} // verus!
