use vstd::prelude::*;
use core::marker::PhantomData;
use crate::command_return::CommandReturn;
use crate::error_code::ErrorCode;
use crate::syscall::{cmd, Command};
use vstd::std_specs::convert::FromSpecImpl;

verus! {

pub const DRIVER_ID: u32 = 4;

pub const GPIO_COUNT: u32 = 0;
pub const GPIO_ENABLE_OUTPUT: u32 = 1;
pub const GPIO_SET: u32 = 2;
pub const GPIO_CLEAR: u32 = 3;
pub const GPIO_TOGGLE: u32 = 4;
pub const GPIO_ENABLE_INPUT: u32 = 5;
pub const GPIO_READ_INPUT: u32 = 6;
pub const GPIO_DISABLE: u32 = 9;

/// The level of a pin: 0 is low, anything else high.
#[derive(Clone, Copy, Debug, PartialEq, Eq, Structural)]
pub enum GpioState {
    Low,
    High,
}

impl GpioState {
    pub open spec fn spec_from_u32(original: u32) -> GpioState {
        if original == 0 {
            GpioState::Low
        } else {
            GpioState::High
        }
    }
}

impl From<u32> for GpioState {
    fn from(original: u32) -> (s: GpioState) {
        match original {
            0 => GpioState::Low,
            _ => GpioState::High,
        }
    }
}

impl FromSpecImpl<u32> for GpioState {
    open spec fn obeys_from_spec() -> bool {
        true
    }

    open spec fn from_spec(original: u32) -> GpioState {
        GpioState::spec_from_u32(original)
    }
}

pub enum Error {
    Invalid,
    Failed,
}

/// The pull resistor an input pin is configured with, by its mode number.
pub trait Pull {
    spec fn spec_mode() -> u32;

    fn mode() -> (m: u32)
        ensures
            m == Self::spec_mode(),
    ;
}

pub struct PullUp;

impl Pull for PullUp {
    open spec fn spec_mode() -> u32 {
        1
    }

    fn mode() -> (m: u32)
        ensures
            m == 1,
    {
        1
    }
}

pub struct PullDown;

impl Pull for PullDown {
    open spec fn spec_mode() -> u32 {
        2
    }

    fn mode() -> (m: u32)
        ensures
            m == 2,
    {
        2
    }
}

pub struct PullNone;

impl Pull for PullNone {
    open spec fn spec_mode() -> u32 {
        0
    }

    fn mode() -> (m: u32)
        ensures
            m == 0,
    {
        0
    }
}

/// The pull modes are the driver's numbers: no pull is 0, a pull-up 1 and a
/// pull-down 2. So the three ask for three different resistors, and a pin
/// made an input with a pull-up asks the kernel for mode 1.
pub proof fn lemma_pull_modes()
    ensures
        PullNone::spec_mode() == 0,
        PullUp::spec_mode() == 1,
        PullDown::spec_mode() == 2,
        PullUp::spec_mode() != PullDown::spec_mode(),
        PullUp::spec_mode() != PullNone::spec_mode(),
        PullDown::spec_mode() != PullNone::spec_mode(),
{
}

/// The GPIO driver.
pub struct Gpio;

impl Gpio {
    /// Asks for the number of pins; the reply reads with `to_result_u32`.
    pub fn count() -> (c: Command)
        ensures
            c == cmd(DRIVER_ID, GPIO_COUNT, 0, 0),
    {
        Command::new(DRIVER_ID, GPIO_COUNT, 0, 0)
    }

    /// Takes a pin: it is disabled first.
    pub fn get_pin(pin: u32) -> (c: Command)
        ensures
            c == cmd(DRIVER_ID, GPIO_DISABLE, pin, 0),
    {
        Command::new(DRIVER_ID, GPIO_DISABLE, pin, 0)
    }

    /// The pin, once the kernel disabled it.
    pub fn get_pin_reply(pin: u32, reply: &CommandReturn) -> (r: Result<Pin, ErrorCode>)
        requires
            reply.wf(),
        ensures
            match reply.spec_to_result_unit() {
                Ok(_) => r matches Ok(p) && p.number() == pin,
                Err(e) => r == Err::<Pin, ErrorCode>(e),
            },
    {
        match reply.to_result_unit() {
            Ok(()) => Ok(Pin { pin_number: pin }),
            Err(e) => Err(e),
        }
    }
}

/// A pin of the GPIO driver. Dropping it disables it again.
pub struct Pin {
    pin_number: u32,
}

impl Pin {
    pub closed spec fn number(&self) -> u32 {
        self.pin_number
    }

    /// Makes the pin an output.
    pub fn make_output(&self) -> (c: Command)
        ensures
            c == cmd(DRIVER_ID, GPIO_ENABLE_OUTPUT, self.number(), 0),
    {
        Command::new(DRIVER_ID, GPIO_ENABLE_OUTPUT, self.pin_number, 0)
    }

    /// The output pin, once the kernel enabled it.
    pub fn make_output_reply<'a>(&'a self, reply: &CommandReturn) -> (r: Result<OutputPin<'a>, ErrorCode>)
        requires
            reply.wf(),
        ensures
            match reply.spec_to_result_unit() {
                Ok(_) => r matches Ok(p) && p.number() == self.number(),
                Err(e) => r == Err::<OutputPin<'a>, ErrorCode>(e),
            },
    {
        match reply.to_result_unit() {
            Ok(()) => Ok(OutputPin { pin: self }),
            Err(e) => Err(e),
        }
    }

    /// Makes the pin an input with the pull resistor `P`.
    pub fn make_input<P: Pull>(&self) -> (c: Command)
        ensures
            c == cmd(DRIVER_ID, GPIO_ENABLE_INPUT, self.number(), P::spec_mode()),
    {
        Command::new(DRIVER_ID, GPIO_ENABLE_INPUT, self.pin_number, P::mode())
    }

    /// The input pin, once the kernel enabled it.
    pub fn make_input_reply<'a, P: Pull>(&'a self, reply: &CommandReturn) -> (r: Result<
        InputPin<'a, P>,
        ErrorCode,
    >)
        requires
            reply.wf(),
        ensures
            match reply.spec_to_result_unit() {
                Ok(_) => r matches Ok(p) && p.number() == self.number(),
                Err(e) => r == Err::<InputPin<'a, P>, ErrorCode>(e),
            },
    {
        match reply.to_result_unit() {
            Ok(()) => Ok(InputPin { pin: self, _pull: PhantomData }),
            Err(e) => Err(e),
        }
    }

    /// What dropping the pin asks: to disable it. The reply is ignored.
    pub fn drop_command(&self) -> (c: Command)
        ensures
            c == cmd(DRIVER_ID, GPIO_DISABLE, self.number(), 0),
    {
        Command::new(DRIVER_ID, GPIO_DISABLE, self.pin_number, 0)
    }
}

/// A pin set up as an output. Each command's reply reads with
/// `to_result_unit`.
pub struct OutputPin<'a> {
    pin: &'a Pin,
}

impl<'a> OutputPin<'a> {
    pub closed spec fn number(&self) -> u32 {
        self.pin.number()
    }

    pub fn toggle(&self) -> (c: Command)
        ensures
            c == cmd(DRIVER_ID, GPIO_TOGGLE, self.number(), 0),
    {
        Command::new(DRIVER_ID, GPIO_TOGGLE, self.pin.pin_number, 0)
    }

    pub fn set(&self) -> (c: Command)
        ensures
            c == cmd(DRIVER_ID, GPIO_SET, self.number(), 0),
    {
        Gpio::write(self.pin.pin_number, GpioState::High)
    }

    pub fn clear(&self) -> (c: Command)
        ensures
            c == cmd(DRIVER_ID, GPIO_CLEAR, self.number(), 0),
    {
        Gpio::write(self.pin.pin_number, GpioState::Low)
    }
}

impl Gpio {
    /// Drives a pin low with `GPIO_CLEAR`, high with `GPIO_SET`.
    fn write(pin: u32, state: GpioState) -> (c: Command)
        ensures
            c == cmd(DRIVER_ID, if state == GpioState::Low { GPIO_CLEAR } else { GPIO_SET }, pin, 0),
    {
        let action = match state {
            GpioState::Low => GPIO_CLEAR,
            _ => GPIO_SET,
        };
        Command::new(DRIVER_ID, action, pin, 0)
    }
}

/// A pin set up as an input with the pull resistor `P`.
pub struct InputPin<'a, P: Pull> {
    pin: &'a Pin,
    _pull: PhantomData<P>,
}

impl<'a, P: Pull> InputPin<'a, P> {
    pub closed spec fn number(&self) -> u32 {
        self.pin.number()
    }

    /// Reads the pin's level.
    pub fn read(&self) -> (c: Command)
        ensures
            c == cmd(DRIVER_ID, GPIO_READ_INPUT, self.number(), 0),
    {
        Command::new(DRIVER_ID, GPIO_READ_INPUT, self.pin.pin_number, 0)
    }

    /// The level a reply to `read` reports, or nothing if it is an error.
    pub fn read_reply(reply: &CommandReturn) -> (r: Option<GpioState>)
        requires
            reply.wf(),
        ensures
            r == (match reply.spec_to_result_u32() {
                Ok(v) => Some(GpioState::spec_from_u32(v)),
                Err(_) => None,
            }),
    {
        match reply.to_result_u32() {
            Ok(v) => Some(GpioState::from(v)),
            Err(_) => None,
        }
    }
}

/// Calls its closure with the pin and its level on each interrupt.
pub struct InterruptListener<F: Fn(u32, GpioState)>(pub F);

impl<F: Fn(u32, GpioState)> InterruptListener<F> {
    /// The pin is the upcall's first argument, its level the second.
    pub fn upcall(&self, gpio_index: u32, state: u32, arg2: u32)
        requires
            self.0.requires((gpio_index, GpioState::spec_from_u32(state))),
        ensures
            self.0.ensures((gpio_index, GpioState::spec_from_u32(state)), ()),
    {
        (self.0)(gpio_index, GpioState::from(state))
    }
}

} // verus!
