use vstd::prelude::*;
use crate::syscall::{cmd, Command};

verus! {

pub const DRIVER_ID: u32 = 2;

pub const LEDS_COUNT: u32 = 0;
pub const LED_ON: u32 = 1;
pub const LED_OFF: u32 = 2;
pub const LED_TOGGLE: u32 = 3;

/// The LEDs driver. The count's reply reads with `get_success_u32`; the
/// other replies are ignored.
pub struct Leds;

impl Leds {
    pub fn count() -> (c: Command)
        ensures
            c == cmd(DRIVER_ID, LEDS_COUNT, 0, 0),
    {
        Command::new(DRIVER_ID, LEDS_COUNT, 0, 0)
    }

    pub fn on(led: u32) -> (c: Command)
        ensures
            c == cmd(DRIVER_ID, LED_ON, led, 0),
    {
        Command::new(DRIVER_ID, LED_ON, led, 0)
    }

    pub fn off(led: u32) -> (c: Command)
        ensures
            c == cmd(DRIVER_ID, LED_OFF, led, 0),
    {
        Command::new(DRIVER_ID, LED_OFF, led, 0)
    }

    pub fn toggle(led: u32) -> (c: Command)
        ensures
            c == cmd(DRIVER_ID, LED_TOGGLE, led, 0),
    {
        Command::new(DRIVER_ID, LED_TOGGLE, led, 0)
    }
}

} // verus!
