use vstd::prelude::*;
use crate::command_return::CommandReturn;
use crate::error_code::ErrorCode;
use crate::syscall::{cmd, Command};
use vstd::std_specs::convert::FromSpecImpl;

verus! {

pub const DRIVER_ID: u32 = 3;

pub const BUTTONS_COUNT: u32 = 0;
pub const BUTTONS_ENABLE_INTERRUPTS: u32 = 1;
pub const BUTTONS_DISABLE_INTERRUPTS: u32 = 2;
pub const BUTTONS_READ: u32 = 3;

/// The state of a button as the kernel reports it: 0 is released, 1 is
/// pressed, any other value is unknown.
#[derive(Clone, Copy, Debug, PartialEq, Eq, Structural)]
pub enum ButtonState {
    Pressed,
    Released,
    Unknown,
}

impl ButtonState {
    pub open spec fn spec_from_u32(original: u32) -> ButtonState {
        if original == 0 {
            ButtonState::Released
        } else if original == 1 {
            ButtonState::Pressed
        } else {
            ButtonState::Unknown
        }
    }
}

impl From<u32> for ButtonState {
    fn from(original: u32) -> (s: ButtonState)
        ensures
            s == ButtonState::Released <==> original == 0,
            s == ButtonState::Pressed <==> original == 1,
            s == ButtonState::Unknown <==> original > 1,
    {
        match original {
            0 => ButtonState::Released,
            1 => ButtonState::Pressed,
            _ => ButtonState::Unknown,
        }
    }
}

impl FromSpecImpl<u32> for ButtonState {
    open spec fn obeys_from_spec() -> bool {
        true
    }

    open spec fn from_spec(original: u32) -> ButtonState {
        ButtonState::spec_from_u32(original)
    }
}

/// The buttons driver.
pub struct Buttons;

impl Buttons {
    /// Asks for the number of buttons; the reply reads with `to_result_u32`.
    pub fn count() -> (c: Command)
        ensures
            c == cmd(DRIVER_ID, BUTTONS_COUNT, 0, 0),
    {
        Command::new(DRIVER_ID, BUTTONS_COUNT, 0, 0)
    }

    /// Asks for the state of a button.
    pub fn read(button: u32) -> (c: Command)
        ensures
            c == cmd(DRIVER_ID, BUTTONS_READ, button, 0),
    {
        Command::new(DRIVER_ID, BUTTONS_READ, button, 0)
    }

    pub open spec fn spec_read_reply(reply: CommandReturn) -> Result<ButtonState, ErrorCode> {
        match reply.spec_to_result_u32() {
            Ok(v) => Ok(ButtonState::spec_from_u32(v)),
            Err(e) => Err(e),
        }
    }

    /// The state that a reply to `read` reports.
    pub fn read_reply(reply: &CommandReturn) -> (r: Result<ButtonState, ErrorCode>)
        requires
            reply.wf(),
        ensures
            r == Self::spec_read_reply(*reply),
    {
        match reply.to_result_u32() {
            Ok(v) => Ok(ButtonState::from(v)),
            Err(e) => Err(e),
        }
    }

    /// Whether a reply to `read` reports the button pressed; an error reads
    /// as not pressed.
    pub fn is_pressed_reply(reply: &CommandReturn) -> (b: bool)
        requires
            reply.wf(),
        ensures
            b == (Self::spec_read_reply(*reply) == Ok::<ButtonState, ErrorCode>(ButtonState::Pressed)),
    {
        match Self::read_reply(reply) {
            Ok(state) => state == ButtonState::Pressed,
            Err(_) => false,
        }
    }

    /// Whether a reply to `read` reports the button released; an error reads
    /// as not released.
    pub fn is_released_reply(reply: &CommandReturn) -> (b: bool)
        requires
            reply.wf(),
        ensures
            b == (Self::spec_read_reply(*reply) == Ok::<ButtonState, ErrorCode>(ButtonState::Released)),
    {
        match Self::read_reply(reply) {
            Ok(state) => state == ButtonState::Released,
            Err(_) => false,
        }
    }

    /// Enables interrupts for a button; the reply reads with `to_result_unit`.
    pub fn enable_interrupts(button: u32) -> (c: Command)
        ensures
            c == cmd(DRIVER_ID, BUTTONS_ENABLE_INTERRUPTS, button, 0),
    {
        Command::new(DRIVER_ID, BUTTONS_ENABLE_INTERRUPTS, button, 0)
    }

    /// Disables interrupts for a button; the reply reads with `to_result_unit`.
    pub fn disable_interrupts(button: u32) -> (c: Command)
        ensures
            c == cmd(DRIVER_ID, BUTTONS_DISABLE_INTERRUPTS, button, 0),
    {
        Command::new(DRIVER_ID, BUTTONS_DISABLE_INTERRUPTS, button, 0)
    }
}

/// No reply reads as a button both pressed and released, and an error reads
/// as neither.
pub proof fn lemma_pressed_excludes_released(reply: CommandReturn)
    ensures
        !(Buttons::spec_read_reply(reply) == Ok::<ButtonState, ErrorCode>(ButtonState::Pressed)
            && Buttons::spec_read_reply(reply) == Ok::<ButtonState, ErrorCode>(ButtonState::Released)),
        Buttons::spec_read_reply(reply) is Err ==> Buttons::spec_read_reply(reply) != Ok::<
            ButtonState,
            ErrorCode,
        >(ButtonState::Pressed) && Buttons::spec_read_reply(reply) != Ok::<ButtonState, ErrorCode>(
            ButtonState::Released,
        ),
{
}

/// Calls its closure with the button and its new state on each button event.
pub struct ButtonListener<F: Fn(u32, ButtonState)>(pub F);

impl<F: Fn(u32, ButtonState)> ButtonListener<F> {
    /// The button is the upcall's first argument, its state the second.
    pub fn upcall(&self, button_index: u32, state: u32, arg2: u32)
        requires
            self.0.requires((button_index, ButtonState::spec_from_u32(state))),
        ensures
            self.0.ensures((button_index, ButtonState::spec_from_u32(state)), ()),
    {
        (self.0)(button_index, ButtonState::from(state))
    }
}

/// The kernel reports a button by a number: 0 reads as released, 1 as
/// pressed, and any other number as unknown.
pub proof fn lemma_state_of_value(value: u32)
    ensures
        ButtonState::spec_from_u32(value) == ButtonState::Released <==> value == 0,
        ButtonState::spec_from_u32(value) == ButtonState::Pressed <==> value == 1,
        ButtonState::spec_from_u32(value) == ButtonState::Unknown <==> value > 1,
{
}

} // verus!
