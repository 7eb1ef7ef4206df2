//! Emulated hardware components of the Sega Master System.
pub mod io16;
pub mod memory16;
pub mod sms_memory;
pub mod sms_io;
pub mod sms_irq;
pub mod sms_player_input;
pub mod sms_roms;
pub mod sms_vdp;
pub mod sn76489;
pub mod z80;
