//! Whole emulated systems.
pub mod sega_master_system;
pub mod sms;
