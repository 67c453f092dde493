use vstd::prelude::*;

verus! {

/// System call configuration: what to do when the kernel hands back an
/// upcall or a buffer that was still registered. The default does nothing.
pub trait Config {
    fn returned_nonnull_upcall(driver_num: u32, subscribe_num: u32) {
    }

    fn returned_nonzero_buffer(driver_num: u32, buffer_num: u32) {
    }
}

/// The configuration that does nothing.
pub struct DefaultConfig;

impl Config for DefaultConfig {}

} // verus!
