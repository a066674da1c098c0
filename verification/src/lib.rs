//! Capacitive touch sensor driver for the ESP32-S3, with its register programming
//! stated and proved over a model of the peripheral's registers.
pub mod regs;
pub mod lowlevel;
pub mod common;
pub mod touch;
pub mod laws;
