use vstd::prelude::*;
use crate::syscall::{cmd, Command};

verus! {

pub const DRIVER_NUM: u32 = 0x7;

pub const EXISTS: u32 = 0;
pub const COMPARISON: u32 = 1;
pub const START_COMPARING: u32 = 2;
pub const STOP_COMPARING: u32 = 3;
pub const COUNT: u32 = 4;

/// The analog comparator driver. Each command's reply reads with
/// `to_result_unit`, but the count's, which reads with `to_result_u32`.
pub struct AnalogComparator;

impl AnalogComparator {
    pub fn driver_exists() -> (c: Command)
        ensures
            c == cmd(DRIVER_NUM, EXISTS, 0, 0),
    {
        Command::new(DRIVER_NUM, EXISTS, 0, 0)
    }

    pub fn analog_comparator_comparison(channel: u32) -> (c: Command)
        ensures
            c == cmd(DRIVER_NUM, COMPARISON, channel, 0),
    {
        Command::new(DRIVER_NUM, COMPARISON, channel, 0)
    }

    pub fn analog_comparator_start_comparing(channel: u32) -> (c: Command)
        ensures
            c == cmd(DRIVER_NUM, START_COMPARING, channel, 0),
    {
        Command::new(DRIVER_NUM, START_COMPARING, channel, 0)
    }

    pub fn analog_comparator_stop_comparing(channel: u32) -> (c: Command)
        ensures
            c == cmd(DRIVER_NUM, STOP_COMPARING, channel, 0),
    {
        Command::new(DRIVER_NUM, STOP_COMPARING, channel, 0)
    }

    pub fn analog_comparator_count() -> (c: Command)
        ensures
            c == cmd(DRIVER_NUM, COUNT, 0, 0),
    {
        Command::new(DRIVER_NUM, COUNT, 0, 0)
    }
}

/// Calls its closure with the channel of each comparator interrupt.
pub struct AnalogComparatorListener<F: Fn(u32)>(pub F);

impl<F: Fn(u32)> AnalogComparatorListener<F> {
    /// The channel is the upcall's first argument.
    pub fn upcall(&self, arg0: u32, arg1: u32, arg2: u32)
        requires
            self.0.requires((arg0,)),
        ensures
            self.0.ensures((arg0,), ()),
    {
        (self.0)(arg0)
    }
}

} // verus!
