//! Register-level logic of small embedded drivers: LPC55 GPIO output pins,
//! an LPC55 alarm time driver, and the STM32 DCMI camera interface.
//!
//! The library computes what the hardware is told (which register word is
//! written, which bits change, which alarm slot is used) and proves it; the
//! memory-mapped accesses themselves are performed by the caller.

pub mod dcmi;
pub mod gpio;
pub mod time_driver;
