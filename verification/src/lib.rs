//! Bring-up and driver core for a barometric pressure sensor attached over
//! SPI to a small microcontroller.
//!
//! The crate verifies the logic of the bring-up sequence and of the sensor's
//! register-access protocol: clock configuration (PLL frequency derivation and
//! ordered configuration steps), GPIO wiring of the chip-select and SPI lines,
//! SPI master configuration, and the chip-select-framed byte exchanges that
//! identify, wake and sample the sensor. Actual memory-mapped register access
//! is left to the surrounding firmware, which executes the step plans and
//! transactions this crate produces.

pub mod bus;
pub mod clock;
pub mod gpio;
pub mod sensor;
pub mod spi;
