pub mod adc;
pub mod gpio;
pub mod i2c_master;
pub mod i2c_master_slave;
pub mod rng;
pub mod spi_controller;
pub mod uart_controller;
