//! Userspace drivers for the Tock kernel's system call interface.
//!
//! Each driver describes what it asks of the kernel (commands, shared
//! buffers, subscriptions) and what the kernel's replies mean, as plain
//! values; the code that performs the system calls hands those replies back.
pub mod error_code;
pub mod command_return;
pub mod syscall;
pub mod config;
pub mod interface;
pub mod adc;
pub mod air_quality;
pub mod ambient_light;
pub mod analog_comparator;
pub mod buttons;
pub mod buzzer;
pub mod console;
pub mod gpio;
pub mod ipc;
pub mod kernel;
pub mod leds;
pub mod net;
pub mod peripherals;
pub mod proximity;
pub mod rng;
pub mod sound_pressure;
pub mod temperature;
pub mod sensors;
pub mod storage;
pub mod screen;
pub mod executor;
pub mod build_scripts;
pub mod codegen;
