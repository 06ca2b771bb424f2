//! Board logic of an STM32G431 sensor node that answers as a Dynamixel
//! servo: the decisions, register encodings and data conversions that the
//! firmware makes, separated from the register accesses themselves.

pub mod devices;
pub mod gpio;
pub mod uart_rx;
pub mod rx_buffer;
pub mod imu;
pub mod control_table;
pub mod clocks;
pub mod dma;
