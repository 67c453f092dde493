use vstd::prelude::*;

verus! {

// The brightness levels that `set_brightness` takes.
pub const OFF: u32 = 0;
pub const MIN: u32 = 1;
pub const MAX: u32 = 65536;

} // verus!
