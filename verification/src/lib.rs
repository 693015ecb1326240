//! Hardware bring-up layer: takes one-time ownership of a chip's raw
//! peripheral registers and turns them into a small set of initialized,
//! platform-independent capability handles (a communication bus and a
//! time-delay provider) gathered in a generic capability bundle.

pub mod bundle;
pub mod chip;
pub mod clock;
pub mod delay;
pub mod esp32;
pub mod gpio;
pub mod i2c;
pub mod laws;
pub mod timer;
pub mod wifi;

pub use bundle::Peripherals;
