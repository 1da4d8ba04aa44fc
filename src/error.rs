use vstd::prelude::*;

verus! {

/// Everything that can go wrong when building a request or decoding a frame.
#[derive(Debug, Clone, Copy, PartialEq, Eq, Structural)]
pub enum Error {
    /// A channel number outside 0..=63.
    ChannelOutOfRange(u8),
    /// Byte 15 of a frame does not match the checksum of bytes 0..=14.
    ChecksumMismatch { expected: u8, found: u8 },
    /// A mode byte outside 0..=5.
    InvalidMode(u8),
    /// A response control byte outside 0..=3.
    InvalidControl(u8),
    /// An opcode that names no command.
    UnknownCommand(u8),
    /// A Set-Brightness format byte other than 1 or 3.
    InvalidBrightnessFormat(u8),
    /// A Temporary-On format byte other than 1 or 3.
    InvalidTemporaryOnFormat(u8),
}

} // verus!
