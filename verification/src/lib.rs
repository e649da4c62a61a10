//! Driver core for the Logitech G213 keyboard: which USB devices are G213
//! keyboards, how a lighting command becomes the 20-byte frame that the
//! firmware parses, and in which order the USB operations of one send are
//! issued so that the kernel driver always gets its interface back.
//!
//! The crate performs no I/O. The caller enumerates and opens devices, carries
//! out each [`device::Action`] and reports its outcome as a [`device::Event`].

pub mod color;
pub mod command;
pub mod device;
pub mod hexfmt;
pub mod lease;
pub mod model;
pub mod payload;
pub mod textfmt;
