//! The cartridge image: its validation and the way from a level to its
//! decoded data.

use vstd::prelude::*;
use vstd::slice::slice_subrange;
use crate::error::Error;
use crate::error::Stream;
use crate::level::enemy_data::LevelEnemyData;
use crate::level::header::LevelHeader;
use crate::level::object_data::LevelObjectData;
use crate::level::Level;
use crate::level::LevelView;
use crate::rom::levels::RomLevel;

pub mod levels;

verus! {

/// The length of the supported image.
pub const ROM_SIZE_BYTES: usize = 40976;

/// The MD5 digest of the supported image.
pub const ROM_MD5_BYTES: [u8; 16] = [
    0x81, 0x1b, 0x02, 0x7e, 0xaf, 0x99, 0xc2, 0xde, 0xf7, 0xb9, 0x33, 0xc5, 0x20, 0x86, 0x36, 0xde,
];

/// The MD5 digest of `data`, as `md5::compute` gives it.
pub uninterp spec fn md5_digest(data: Seq<u8>) -> Seq<u8>;

/// Calls `md5::compute`. The contract names the digest and claims nothing
/// of its value but that it depends on the bytes of `data` alone.
#[verifier::external_body]
fn md5_compute(data: &[u8]) -> (digest: [u8; 16])
    ensures
        digest@ == md5_digest(data@),
{
    md5::compute(data).0
}

/// A cartridge image.
#[derive(Debug, Clone, PartialEq, Eq)]
pub struct Rom {
    pub rom_data: Vec<u8>,
}

impl Rom {
    /// Whether `data` is the supported image: it has its length and its MD5
    /// digest.
    pub open spec fn spec_is_supported(data: Seq<u8>) -> bool {
        data.len() == ROM_SIZE_BYTES && md5_digest(data) == ROM_MD5_BYTES@
    }

    /// Whether `e` is the error that rejects `data`: the length is checked
    /// first, then the digest, and the error holds what was found.
    pub open spec fn spec_rejection(data: Seq<u8>, e: Error) -> bool {
        if data.len() != ROM_SIZE_BYTES {
            e == (Error::RomSizeInvalid { found: data.len() as usize, expected: ROM_SIZE_BYTES })
        } else {
            &&& md5_digest(data) != ROM_MD5_BYTES@
            &&& e matches Error::RomMd5Mismatch { found, expected }
            &&& found@ == md5_digest(data)
            &&& expected == ROM_MD5_BYTES
        }
    }

    /// Takes `rom_data` as the image if it is the supported one. An image of
    /// another length is rejected with `RomSizeInvalid`, one of the right
    /// length and another digest with `RomMd5Mismatch`.
    pub fn new(rom_data: Vec<u8>) -> (result: Result<Self, Error>)
        ensures
            match result {
                Ok(rom) => Self::spec_is_supported(rom_data@) && rom.rom_data == rom_data,
                Err(e) => Self::spec_rejection(rom_data@, e),
            },
    {
        match Self::validate_rom_data(rom_data.as_slice()) {
            Ok(()) => Ok(Self { rom_data }),
            Err(e) => Err(e),
        }
    }

    /// What decoding the level `level` from `data` gives: the header, the
    /// objects, the enemies and the pipe pointers found at the level's
    /// offsets, or the error of the first part that is cut short.
    pub open spec fn spec_get_level(data: Seq<u8>, level: RomLevel) -> Result<LevelView, Error> {
        let (header_offset, block_offset, enemy_offset) = level.spec_offsets();
        if header_offset + 2 > data.len() {
            Err(Error::MalformedStream(Stream::Header))
        } else {
            match LevelObjectData::spec_from_bytes(data.skip(block_offset as int)) {
                Err(e) => Err(e),
                Ok(objects) => match LevelEnemyData::spec_from_bytes(
                    data.skip(enemy_offset as int),
                ) {
                    Err(e) => Err(e),
                    Ok(enemy_data) => Ok(
                        LevelView {
                            header: LevelHeader::spec_from_bytes(
                                data[header_offset as int],
                                data[header_offset + 1],
                            ),
                            objects,
                            enemies: enemy_data.enemies,
                            pipe_pointers: enemy_data.pipe_pointers,
                        },
                    ),
                },
            }
        }
    }

    /// Whether `result` is what decoding the level `level` from `data`
    /// gives: the postcondition of `get_level`.
    pub open spec fn spec_decodes_to(
        data: Seq<u8>,
        level: RomLevel,
        result: Result<Level, Error>,
    ) -> bool {
        match result {
            Ok(decoded) => Self::spec_get_level(data, level) == Ok::<LevelView, Error>(decoded@),
            Err(e) => Self::spec_get_level(data, level) == Err::<LevelView, Error>(e),
        }
    }

    /// Decoding is a function of the image and the level: any two results
    /// of decoding the same level from the same bytes fail with the same
    /// error or hold the same header and the same sequences.
    pub proof fn lemma_decoding_deterministic(
        data: Seq<u8>,
        level: RomLevel,
        first: Result<Level, Error>,
        second: Result<Level, Error>,
    )
        requires
            Self::spec_decodes_to(data, level, first),
            Self::spec_decodes_to(data, level, second),
        ensures
            match (first, second) {
                (Ok(a), Ok(b)) => a@ == b@,
                (Err(a), Err(b)) => a == b,
                _ => false,
            },
    {
    }

    /// Decodes the level `level_name` from the image.
    pub fn get_level(&self, level_name: &RomLevel) -> (result: Result<Level, Error>)
        ensures
            Self::spec_decodes_to(self.rom_data@, *level_name, result),
    {
        let (header_offset, block_offset, enemy_offset) = level_name.get_offsets();
        proof {
            level_name.lemma_offsets();
        }
        let data = self.rom_data.as_slice();
        let len = data.len();
        if len < 2 || header_offset > len - 2 {
            return Err(Error::MalformedStream(Stream::Header));
        }
        let header_bytes = slice_subrange(data, header_offset, len);
        let block_bytes = slice_subrange(data, block_offset, len);
        let enemy_bytes = slice_subrange(data, enemy_offset, len);

        let level_header = LevelHeader::from_bytes(header_bytes);
        let object_data = match LevelObjectData::from_bytes(block_bytes) {
            Ok(object_data) => object_data,
            Err(e) => {
                return Err(e);
            },
        };
        let enemy_data = match LevelEnemyData::from_bytes(enemy_bytes) {
            Ok(enemy_data) => enemy_data,
            Err(e) => {
                return Err(e);
            },
        };

        Ok(Level { level_header, object_data, enemy_data })
    }

    fn validate_rom_data(data: &[u8]) -> (result: Result<(), Error>)
        ensures
            match result {
                Ok(()) => Self::spec_is_supported(data@),
                Err(e) => Self::spec_rejection(data@, e),
            },
    {
        // check rom length
        let len = data.len();
        if len != ROM_SIZE_BYTES {
            return Err(Error::RomSizeInvalid { found: len, expected: ROM_SIZE_BYTES });
        }

        // check md5
        let digest = md5_compute(data);
        Self::check_digest(digest)
    }

    /// What checking a digest against the supported image's gives.
    pub open spec fn spec_check_digest(digest: [u8; 16]) -> Result<(), Error> {
        if digest@ == ROM_MD5_BYTES@ {
            Ok(())
        } else {
            Err(Error::RomMd5Mismatch { found: digest, expected: ROM_MD5_BYTES })
        }
    }

    /// Compares a digest with that of the supported image.
    pub fn check_digest(digest: [u8; 16]) -> (result: Result<(), Error>)
        ensures
            result == Self::spec_check_digest(digest),
    {
        let mut i: usize = 0;
        while i < 16
            invariant
                i <= 16,
                forall|j: int| 0 <= j < i ==> digest@[j] == ROM_MD5_BYTES@[j],
            decreases 16 - i,
        {
            if digest[i] != ROM_MD5_BYTES[i] {
                return Err(Error::RomMd5Mismatch { found: digest, expected: ROM_MD5_BYTES });
            }
            i += 1;
        }
        assert(digest@ =~= ROM_MD5_BYTES@);
        Ok(())
    }
}

} // verus!
