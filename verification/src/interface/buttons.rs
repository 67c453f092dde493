use vstd::prelude::*;
use crate::command_return::CommandReturn;
use crate::error_code::ErrorCode;
use crate::syscall::{cmd, Command};
use vstd::std_specs::convert::FromSpecImpl;

verus! {

pub const DRIVER_NUM: u32 = 0x3;

pub const BUTTONS_COUNT: u32 = 0;
pub const BUTTONS_ENABLE_INTERRUPTS: u32 = 1;
pub const BUTTONS_DISABLE_INTERRUPTS: u32 = 2;
pub const BUTTONS_READ: u32 = 3;

/// The state of a button: 0 is released, anything else pressed.
#[derive(Clone, Copy, Debug, PartialEq, Eq, Structural)]
pub enum ButtonState {
    Pressed,
    Released,
}

impl ButtonState {
    pub open spec fn spec_from_u32(value: u32) -> ButtonState {
        if value == 0 {
            ButtonState::Released
        } else {
            ButtonState::Pressed
        }
    }
}

impl From<u32> for ButtonState {
    fn from(value: u32) -> (s: ButtonState)
        ensures
            s == ButtonState::Released <==> value == 0,
            s == ButtonState::Pressed <==> value != 0,
    {
        match value {
            0 => ButtonState::Released,
            _ => ButtonState::Pressed,
        }
    }
}

impl FromSpecImpl<u32> for ButtonState {
    open spec fn obeys_from_spec() -> bool {
        true
    }

    open spec fn from_spec(value: u32) -> ButtonState {
        ButtonState::spec_from_u32(value)
    }
}

/// The buttons driver.
pub struct Buttons;

impl Buttons {
    /// Asks for the number of buttons; the reply reads with `to_result_u32`.
    pub fn count() -> (c: Command)
        ensures
            c == cmd(DRIVER_NUM, BUTTONS_COUNT, 0, 0),
    {
        Command::new(DRIVER_NUM, BUTTONS_COUNT, 0, 0)
    }

    /// Asks for the state of a button.
    pub fn read(button: u32) -> (c: Command)
        ensures
            c == cmd(DRIVER_NUM, BUTTONS_READ, button, 0),
    {
        Command::new(DRIVER_NUM, BUTTONS_READ, button, 0)
    }

    pub open spec fn spec_read_reply(reply: CommandReturn) -> Result<ButtonState, ErrorCode> {
        match reply.spec_to_result_u32() {
            Ok(v) => Ok(ButtonState::spec_from_u32(v)),
            Err(e) => Err(e),
        }
    }

    /// The state that a reply to `read` reports.
    pub fn read_reply(reply: &CommandReturn) -> (r: Result<ButtonState, ErrorCode>)
        requires
            reply.wf(),
        ensures
            r == Self::spec_read_reply(*reply),
    {
        match reply.to_result_u32() {
            Ok(v) => Ok(ButtonState::from(v)),
            Err(e) => Err(e),
        }
    }

    /// Whether the button is pressed: false when it is released, when the
    /// button number is invalid, and on any error.
    pub fn is_pressed_reply(reply: &CommandReturn) -> (b: bool)
        requires
            reply.wf(),
        ensures
            b == (Self::spec_read_reply(*reply) == Ok::<ButtonState, ErrorCode>(ButtonState::Pressed)),
    {
        match Self::read_reply(reply) {
            Ok(state) => state == ButtonState::Pressed,
            Err(_) => false,
        }
    }

    /// Whether the button is released: false when it is pressed, when the
    /// button number is invalid, and on any error.
    pub fn is_released_reply(reply: &CommandReturn) -> (b: bool)
        requires
            reply.wf(),
        ensures
            b == (Self::spec_read_reply(*reply) == Ok::<ButtonState, ErrorCode>(ButtonState::Released)),
    {
        match Self::read_reply(reply) {
            Ok(state) => state == ButtonState::Released,
            Err(_) => false,
        }
    }

    /// Enables events for a button; the reply reads with `to_result_unit`.
    pub fn enable_interrupts(button: u32) -> (c: Command)
        ensures
            c == cmd(DRIVER_NUM, BUTTONS_ENABLE_INTERRUPTS, button, 0),
    {
        Command::new(DRIVER_NUM, BUTTONS_ENABLE_INTERRUPTS, button, 0)
    }

    /// Disables events for a button; the reply reads with `to_result_unit`.
    pub fn disable_interrupts(button: u32) -> (c: Command)
        ensures
            c == cmd(DRIVER_NUM, BUTTONS_DISABLE_INTERRUPTS, button, 0),
    {
        Command::new(DRIVER_NUM, BUTTONS_DISABLE_INTERRUPTS, button, 0)
    }
}

/// No reply reads as a button both pressed and released, and an error reads
/// as neither.
pub proof fn lemma_pressed_excludes_released(reply: CommandReturn)
    ensures
        !(Buttons::spec_read_reply(reply) == Ok::<ButtonState, ErrorCode>(ButtonState::Pressed)
            && Buttons::spec_read_reply(reply) == Ok::<ButtonState, ErrorCode>(ButtonState::Released)),
        Buttons::spec_read_reply(reply) is Err ==> Buttons::spec_read_reply(reply) != Ok::<
            ButtonState,
            ErrorCode,
        >(ButtonState::Pressed) && Buttons::spec_read_reply(reply) != Ok::<ButtonState, ErrorCode>(
            ButtonState::Released,
        ),
{
}

/// Calls its closure with the button and its new state on each button event.
pub struct ButtonListener<F: Fn(u32, ButtonState)>(pub F);

impl<F: Fn(u32, ButtonState)> ButtonListener<F> {
    /// The button is the upcall's first argument, its state the second.
    pub fn upcall(&self, button_index: u32, state: u32, arg2: u32)
        requires
            self.0.requires((button_index, ButtonState::spec_from_u32(state))),
        ensures
            self.0.ensures((button_index, ButtonState::spec_from_u32(state)), ()),
    {
        (self.0)(button_index, ButtonState::from(state))
    }
}

/// The kernel reports a button by a number: 0 reads as released and any
/// other number as pressed.
pub proof fn lemma_state_of_value(value: u32)
    ensures
        ButtonState::spec_from_u32(value) == ButtonState::Released <==> value == 0,
        ButtonState::spec_from_u32(value) == ButtonState::Pressed <==> value != 0,
{
}

/// A reply to a read that carries a value reads as released exactly when
/// the value is 0 and as pressed exactly when it is not; a reply that
/// carries no value reads as its error.
pub proof fn lemma_read_reply_value(reply: CommandReturn)
    ensures
        reply.spec_to_result_u32() matches Ok(v) ==> {
            &&& (Buttons::spec_read_reply(reply) == Ok::<ButtonState, ErrorCode>(ButtonState::Released)
                <==> v == 0)
            &&& (Buttons::spec_read_reply(reply) == Ok::<ButtonState, ErrorCode>(ButtonState::Pressed)
                <==> v != 0)
        },
        reply.spec_to_result_u32() matches Err(e) ==> Buttons::spec_read_reply(reply) == Err::<
            ButtonState,
            ErrorCode,
        >(e),
{
}

} // verus!
