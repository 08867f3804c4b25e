//! The errors of this crate.

use vstd::prelude::*;

verus! {

/// A part of a level's data.
#[derive(Debug, Clone, Copy, PartialEq, Eq, Structural)]
pub enum Stream {
    /// The two header bytes.
    Header,
    /// The object records, up to their terminator `0xFD`.
    Objects,
    /// The enemy records, up to their terminator `0xFF`.
    Enemies,
}

/// Why an image, a level name or a level's data was rejected.
#[derive(Debug, Clone, Copy, PartialEq, Eq)]
#[allow(inconsistent_fields)]
pub enum Error {
    /// The image does not have the length of the supported cartridge.
    RomSizeInvalid { found: usize, expected: usize },
    /// The image has the right length, but not the MD5 digest of the
    /// supported cartridge.
    RomMd5Mismatch { found: [u8; 16], expected: [u8; 16] },
    /// No level has this name.
    UnknownLevelName,
    /// The data of this part ends before the part does: the header is cut
    /// short, or a stream has no terminator where a record would begin.
    MalformedStream(Stream),
}

} // verus!
