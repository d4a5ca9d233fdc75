//! Verified hardware abstraction logic for the MIK32 microcontroller family.
//!
//! Every module holds the computations behind one peripheral driver: register
//! field encodings, divider and timing selection, validation of user
//! configuration, and the decision steps of the polling state machines.
//! Register access itself is performed by the driver layer on top of this
//! crate, which hands plain values in and writes the results back.

pub mod clock;
pub mod i2c;
pub mod dma;
pub mod crc;
pub mod crypto;
pub mod gpio;
pub mod nb;
pub mod dac;
pub mod epic;
pub mod rcc;
pub mod scr1_timer;
pub mod spi;
pub mod spifi;
pub mod timer16;
pub mod timer32_0;
pub mod timer32_2;
pub mod tsens;
pub mod usart;
pub mod wait;
pub mod constants;
