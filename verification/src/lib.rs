//! Verified board logic for the STM32F4VE examples: the decisions that the
//! interrupt handlers, the serial sender, the SD-card block device and the
//! display demo make, separated from the peripheral access that performs them.

pub mod block_storage;
pub mod buttons;
pub mod display_demo;
pub mod geometry;
pub mod serial_tx;
