//! Command model and execution dispatcher for a FEL-style device flasher.
//!
//! The crate models a small set of memory operations (dump, write, execute,
//! reset, clear, fill, two-stage bootloader flashing) over a flat 32-bit
//! address space.  Commands are validated at construction time; a dispatcher
//! then drives them against an abstract device capability, and every range
//! check, protocol step and rendering rule is verified.

pub mod config;
pub mod device;
pub mod dispatch;
pub mod errors;
pub mod files;
pub mod parse;
pub mod render;

pub use errors::CliError;
pub use errors::FlashError;
