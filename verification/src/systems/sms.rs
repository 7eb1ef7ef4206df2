//! The Sega Master System.
pub mod help;
pub mod emulator;
pub mod user_interface;
pub mod frame;
