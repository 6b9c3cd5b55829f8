//! Sans-I/O drivers for the on-chip flash controller and the DMA channel
//! configurator of STM32 microcontrollers.
//!
//! Nothing here touches a register. Each driver decides which register
//! operation comes next and what the command's outcome is; the firmware
//! performs the operations and reports what the hardware answered.

pub mod dma;
pub mod flash;
