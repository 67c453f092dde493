pub mod ipc;
pub mod low_level_debug;
