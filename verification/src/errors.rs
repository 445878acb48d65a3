//! Error values reported by command construction and dispatch.

use vstd::prelude::*;

verus! {

/// The device operation that was being attempted when a transport failure
/// occurred.  Carried inside [`FlashError::Transport`] so that a caller can
/// report which high-level action failed (operation kind, address, size).
#[derive(Debug, Clone, PartialEq, Eq)]
pub enum Operation {
    /// Writing the stage-1 loader and starting it (one combined step).
    Stage1Transfer,
    /// Writing the stage-2 bootloader image.
    Stage2Write,
    /// Jumping to the entry point reported for the stage-2 image.
    StartUboot { entry: u32 },
    /// Reading the security-identifier registers.
    SidQuery,
    /// Reading a span of memory.
    ReadBytes { address: u32, size: u32 },
    /// Reading a single 32-bit word.
    ReadWord { address: u32 },
    /// Writing a single 32-bit word.
    WriteWord { address: u32, word: u32 },
    /// Writing the contents of a file.
    WriteFile { address: u32, path: String },
    /// Jumping to code at an address.
    ExecuteAt { address: u32 },
    /// Requesting a warm reset into 64-bit mode.
    WarmReset { address: u32 },
    /// Querying identity/version information.
    VersionQuery,
    /// Filling a region with one byte value.
    FillMemory { address: u32, num_bytes: u32, fill_byte: u8 },
}

/// Failure of command construction or dispatch.
#[derive(Debug, Clone, PartialEq, Eq)]
pub enum FlashError {
    /// An address/size pair would cross the end of the 32-bit address space.
    RangeError,
    /// A referenced input file does not exist.
    NotFound { path: String },
    /// A flash-and-execute request was given an image too small to contain an
    /// executable second stage.
    InvalidImage,
    /// The device lacks the queried capability (no SID registers).
    UnsupportedFeature,
    /// The device reported a failure while the given operation was attempted.
    Transport { attempted: Operation },
}

/// A command-line level error: a human-readable description of what was wrong
/// with the given arguments.
#[derive(Debug, Clone, PartialEq, Eq)]
pub struct CliError {
    /// Description of the error.
    pub description: String,
}

} // verus!
