//! A minimal hardware-abstraction shim for peripheral drivers on a
//! single-board computer: a stateless handle for blocking delays, a software
//! countdown timer polled without blocking, and the skeleton of an I2C bus
//! handle.

pub mod hal;
pub mod i2c;
