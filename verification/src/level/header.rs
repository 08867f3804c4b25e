//! The two-byte header of a level and the six enumerations of its fields.

use vstd::prelude::*;
use vstd::pervasive::unreached;
use crate::util::lemma_byte_fields;

verus! {

/// The header of a level.
#[derive(Debug, Clone, Copy, PartialEq, Eq, Structural)]
pub struct LevelHeader {
    pub time: LevelTime,
    pub start_position: LevelStartPosition,
    pub start_autowalk: bool,
    pub background: LevelBackground,
    pub scenery: LevelScenery,
    pub platform: LevelPlatform,
    pub ground: LevelGround,
}

impl LevelHeader {
    /// The header that the bytes `first`, `second` stand for.
    ///
    /// ```text
    ///  T T A Y Y B B B   S S P P G G G G
    ///  |_| | |_| |_|_|   |_| |_| |_|_|_|
    ///   |  |  |    |      |   |     +---- ground
    ///   |  |  |    |      |   +---------- scenery
    ///   |  |  |    |      +-------------- platform
    ///   |  |  |    +--------------------- background
    ///   |  |  +-------------------------- start position
    ///   |  +----------------------------- autowalk
    ///   +-------------------------------- time
    /// ```
    pub open spec fn spec_from_bytes(first: u8, second: u8) -> LevelHeader {
        LevelHeader {
            time: LevelTime::spec_new(first / 64),
            start_position: LevelStartPosition::spec_new((first / 8) % 4),
            start_autowalk: (first / 32) % 2 == 1,
            background: LevelBackground::spec_new(first % 8),
            scenery: LevelScenery::spec_new((second / 16) % 4),
            platform: LevelPlatform::spec_new(second / 64),
            ground: LevelGround::spec_new(second % 16),
        }
    }

    /// The seven fields fill the two bytes: a header tells the bytes that
    /// it was decoded from.
    pub proof fn lemma_fields_determine_bytes(first: u8, second: u8)
        ensures
            ({
                let header = Self::spec_from_bytes(first, second);
                &&& first == 64 * header.time.spec_value() + 32 * (if header.start_autowalk {
                    1int
                } else {
                    0int
                }) + 8 * header.start_position.spec_value() + header.background.spec_value()
                &&& second == 64 * header.platform.spec_value() + 16
                    * header.scenery.spec_value() + header.ground.spec_value()
            }),
    {
        let header = Self::spec_from_bytes(first, second);
        LevelTime::lemma_bits_and_values(first / 64, header.time);
        LevelStartPosition::lemma_bits_and_values((first / 8) % 4, header.start_position);
        LevelBackground::lemma_bits_and_values(first % 8, header.background);
        LevelPlatform::lemma_bits_and_values(second / 64, header.platform);
        LevelScenery::lemma_bits_and_values((second / 16) % 4, header.scenery);
        LevelGround::lemma_bits_and_values(second % 16, header.ground);
        assert(first == 64 * (first / 64) + 32 * ((first / 32) % 2) + 8 * ((first / 8) % 4) + first
            % 8) by (bit_vector);
        assert(second == 64 * (second / 64) + 16 * ((second / 16) % 4) + second % 16)
            by (bit_vector);
    }

    /// Decodes the header in the first two bytes of `bytes`.
    pub fn from_bytes(bytes: &[u8]) -> (header: Self)
        requires
            bytes@.len() >= 2,
        ensures
            header == Self::spec_from_bytes(bytes@[0], bytes@[1]),
    {
        // first byte
        let time = Self::parse_level_time(bytes);
        let start_position = Self::parse_level_start_position(bytes);
        let start_autowalk = Self::parse_level_start_autowalk(bytes);
        let background = Self::parse_level_background(bytes);

        // second byte
        let scenery = Self::parse_level_scenery(bytes);
        let platform = Self::parse_level_platform(bytes);
        let ground = Self::parse_level_ground(bytes);

        Self { time, start_position, start_autowalk, background, scenery, platform, ground }
    }

    /// TTxxxxxx xxxxxxxx
    fn parse_level_time(bytes: &[u8]) -> (time: LevelTime)
        requires
            bytes@.len() >= 2,
        ensures
            time == LevelTime::spec_new(bytes@[0] / 64),
    {
        proof {
            lemma_byte_fields(bytes@[0]);
        }
        let bits: u8 = (bytes[0] & 0b11000000) >> 6;
        LevelTime::new(bits)
    }

    /// xxAxxxxx xxxxxxxx
    fn parse_level_start_autowalk(bytes: &[u8]) -> (autowalk: bool)
        requires
            bytes@.len() >= 2,
        ensures
            autowalk == ((bytes@[0] / 32) % 2 == 1),
    {
        proof {
            lemma_byte_fields(bytes@[0]);
        }
        let bit: u8 = (bytes[0] & 0b00100000) >> 5;
        bit == 1
    }

    /// xxxYYxxx xxxxxxxx
    fn parse_level_start_position(bytes: &[u8]) -> (position: LevelStartPosition)
        requires
            bytes@.len() >= 2,
        ensures
            position == LevelStartPosition::spec_new((bytes@[0] / 8) % 4),
    {
        proof {
            lemma_byte_fields(bytes@[0]);
        }
        let bits: u8 = (bytes[0] & 0b00011000) >> 3;
        LevelStartPosition::new(bits)
    }

    /// xxxxxBBB xxxxxxxx
    fn parse_level_background(bytes: &[u8]) -> (background: LevelBackground)
        requires
            bytes@.len() >= 2,
        ensures
            background == LevelBackground::spec_new(bytes@[0] % 8),
    {
        proof {
            lemma_byte_fields(bytes@[0]);
        }
        let bits: u8 = bytes[0] & 0b00000111;
        LevelBackground::new(bits)
    }

    /// xxxxxxxx PPxxxxxx
    fn parse_level_platform(bytes: &[u8]) -> (platform: LevelPlatform)
        requires
            bytes@.len() >= 2,
        ensures
            platform == LevelPlatform::spec_new(bytes@[1] / 64),
    {
        proof {
            lemma_byte_fields(bytes@[1]);
        }
        let bits: u8 = (bytes[1] & 0b11000000) >> 6;
        LevelPlatform::new(bits)
    }

    /// xxxxxxxx xxSSxxxx
    fn parse_level_scenery(bytes: &[u8]) -> (scenery: LevelScenery)
        requires
            bytes@.len() >= 2,
        ensures
            scenery == LevelScenery::spec_new((bytes@[1] / 16) % 4),
    {
        proof {
            lemma_byte_fields(bytes@[1]);
        }
        let bits: u8 = (bytes[1] & 0b00110000) >> 4;
        LevelScenery::new(bits)
    }

    /// xxxxxxxx xxxxGGGG
    fn parse_level_ground(bytes: &[u8]) -> (ground: LevelGround)
        requires
            bytes@.len() >= 2,
        ensures
            ground == LevelGround::spec_new(bytes@[1] % 16),
    {
        proof {
            lemma_byte_fields(bytes@[1]);
        }
        let bits: u8 = bytes[1] & 0b00001111;
        LevelGround::new(bits)
    }
}

/// Where the player enters the level.
#[derive(Debug, Clone, Copy, PartialEq, Eq, Structural)]
pub enum LevelStartPosition {
    FallFromSky,
    StartOnGround,
    FallFromSkyAlternate,
    HalfwayOffGround,
}

impl LevelStartPosition {
    /// The number of values, one for each pattern of the field's 2 bits.
    pub const COUNT: u8 = 4;

    /// The value that the bits `val` stand for, for `val` below `COUNT`.
    pub open spec fn spec_new(val: u8) -> Self {
        match val {
            0b00 => Self::FallFromSky,
            0b01 => Self::StartOnGround,
            0b10 => Self::FallFromSkyAlternate,
            _ => Self::HalfwayOffGround,
        }
    }

    /// The bits that stand for the value.
    pub open spec fn spec_value(self) -> u8 {
        match self {
            Self::FallFromSky => 0b00,
            Self::StartOnGround => 0b01,
            Self::FallFromSkyAlternate => 0b10,
            Self::HalfwayOffGround => 0b11,
        }
    }

    /// Every pattern of the field's bits stands for exactly one value, and
    /// every value for exactly one pattern.
    pub proof fn lemma_bits_and_values(val: u8, value: Self)
        ensures
            val < Self::COUNT ==> Self::spec_new(val).spec_value() == val,
            value.spec_value() < Self::COUNT,
            Self::spec_new(value.spec_value()) == value,
    {
    }

    /// The value that the bits `val` stand for.
    pub fn new(val: u8) -> (result: Self)
        requires
            val < Self::COUNT,
        ensures
            result == Self::spec_new(val),
            result.spec_value() == val,
    {
        match val {
            0b00 => Self::FallFromSky,
            0b01 => Self::StartOnGround,
            0b10 => Self::FallFromSkyAlternate,
            0b11 => Self::HalfwayOffGround,
            _ => unreached(),
        }
    }

    /// The bits that stand for the value.
    pub fn value(&self) -> (val: u8)
        ensures
            val == self.spec_value(),
            val < Self::COUNT,
            Self::spec_new(val) == *self,
    {
        match self {
            Self::FallFromSky => 0b00,
            Self::StartOnGround => 0b01,
            Self::FallFromSkyAlternate => 0b10,
            Self::HalfwayOffGround => 0b11,
        }
    }
}

/// The time limit of the level.
#[derive(Debug, Clone, Copy, PartialEq, Eq, Structural)]
pub enum LevelTime {
    NotSet,
    T400,
    T300,
    T200,
}

impl LevelTime {
    /// The number of values, one for each pattern of the field's 2 bits.
    pub const COUNT: u8 = 4;

    /// The value that the bits `val` stand for, for `val` below `COUNT`.
    pub open spec fn spec_new(val: u8) -> Self {
        match val {
            0b00 => Self::NotSet,
            0b01 => Self::T400,
            0b10 => Self::T300,
            _ => Self::T200,
        }
    }

    /// The bits that stand for the value.
    pub open spec fn spec_value(self) -> u8 {
        match self {
            Self::NotSet => 0b00,
            Self::T400 => 0b01,
            Self::T300 => 0b10,
            Self::T200 => 0b11,
        }
    }

    /// Every pattern of the field's bits stands for exactly one value, and
    /// every value for exactly one pattern.
    pub proof fn lemma_bits_and_values(val: u8, value: Self)
        ensures
            val < Self::COUNT ==> Self::spec_new(val).spec_value() == val,
            value.spec_value() < Self::COUNT,
            Self::spec_new(value.spec_value()) == value,
    {
    }

    /// The value that the bits `val` stand for.
    pub fn new(val: u8) -> (result: Self)
        requires
            val < Self::COUNT,
        ensures
            result == Self::spec_new(val),
            result.spec_value() == val,
    {
        match val {
            0b00 => Self::NotSet,
            0b01 => Self::T400,
            0b10 => Self::T300,
            0b11 => Self::T200,
            _ => unreached(),
        }
    }

    /// The bits that stand for the value.
    pub fn value(&self) -> (val: u8)
        ensures
            val == self.spec_value(),
            val < Self::COUNT,
            Self::spec_new(val) == *self,
    {
        match self {
            Self::NotSet => 0b00,
            Self::T400 => 0b01,
            Self::T300 => 0b10,
            Self::T200 => 0b11,
        }
    }
}

/// The background of the level.
#[derive(Debug, Clone, Copy, PartialEq, Eq, Structural)]
pub enum LevelBackground {
    DayTime,
    Underwater,
    CastleWall,
    Overwater,
    NightTime,
    DayTimeSnow,
    NightTimeSnow,
    BlackAndWhite,
}

impl LevelBackground {
    /// The number of values, one for each pattern of the field's 3 bits.
    pub const COUNT: u8 = 8;

    /// The value that the bits `val` stand for, for `val` below `COUNT`.
    pub open spec fn spec_new(val: u8) -> Self {
        match val {
            0b000 => Self::DayTime,
            0b001 => Self::Underwater,
            0b010 => Self::CastleWall,
            0b011 => Self::Overwater,
            0b100 => Self::NightTime,
            0b101 => Self::DayTimeSnow,
            0b110 => Self::NightTimeSnow,
            _ => Self::BlackAndWhite,
        }
    }

    /// The bits that stand for the value.
    pub open spec fn spec_value(self) -> u8 {
        match self {
            Self::DayTime => 0b000,
            Self::Underwater => 0b001,
            Self::CastleWall => 0b010,
            Self::Overwater => 0b011,
            Self::NightTime => 0b100,
            Self::DayTimeSnow => 0b101,
            Self::NightTimeSnow => 0b110,
            Self::BlackAndWhite => 0b111,
        }
    }

    /// Every pattern of the field's bits stands for exactly one value, and
    /// every value for exactly one pattern.
    pub proof fn lemma_bits_and_values(val: u8, value: Self)
        ensures
            val < Self::COUNT ==> Self::spec_new(val).spec_value() == val,
            value.spec_value() < Self::COUNT,
            Self::spec_new(value.spec_value()) == value,
    {
    }

    /// The value that the bits `val` stand for.
    pub fn new(val: u8) -> (result: Self)
        requires
            val < Self::COUNT,
        ensures
            result == Self::spec_new(val),
            result.spec_value() == val,
    {
        match val {
            0b000 => Self::DayTime,
            0b001 => Self::Underwater,
            0b010 => Self::CastleWall,
            0b011 => Self::Overwater,
            0b100 => Self::NightTime,
            0b101 => Self::DayTimeSnow,
            0b110 => Self::NightTimeSnow,
            0b111 => Self::BlackAndWhite,
            _ => unreached(),
        }
    }

    /// The bits that stand for the value.
    pub fn value(&self) -> (val: u8)
        ensures
            val == self.spec_value(),
            val < Self::COUNT,
            Self::spec_new(val) == *self,
    {
        match self {
            Self::DayTime => 0b000,
            Self::Underwater => 0b001,
            Self::CastleWall => 0b010,
            Self::Overwater => 0b011,
            Self::NightTime => 0b100,
            Self::DayTimeSnow => 0b101,
            Self::NightTimeSnow => 0b110,
            Self::BlackAndWhite => 0b111,
        }
    }
}

/// The scenery behind the level.
#[derive(Debug, Clone, Copy, PartialEq, Eq, Structural)]
pub enum LevelScenery {
    Nothing,
    Clouds,
    Mountains,
    Fence,
}

impl LevelScenery {
    /// The number of values, one for each pattern of the field's 2 bits.
    pub const COUNT: u8 = 4;

    /// The value that the bits `val` stand for, for `val` below `COUNT`.
    pub open spec fn spec_new(val: u8) -> Self {
        match val {
            0b00 => Self::Nothing,
            0b01 => Self::Clouds,
            0b10 => Self::Mountains,
            _ => Self::Fence,
        }
    }

    /// The bits that stand for the value.
    pub open spec fn spec_value(self) -> u8 {
        match self {
            Self::Nothing => 0b00,
            Self::Clouds => 0b01,
            Self::Mountains => 0b10,
            Self::Fence => 0b11,
        }
    }

    /// Every pattern of the field's bits stands for exactly one value, and
    /// every value for exactly one pattern.
    pub proof fn lemma_bits_and_values(val: u8, value: Self)
        ensures
            val < Self::COUNT ==> Self::spec_new(val).spec_value() == val,
            value.spec_value() < Self::COUNT,
            Self::spec_new(value.spec_value()) == value,
    {
    }

    /// The value that the bits `val` stand for.
    pub fn new(val: u8) -> (result: Self)
        requires
            val < Self::COUNT,
        ensures
            result == Self::spec_new(val),
            result.spec_value() == val,
    {
        match val {
            0b00 => Self::Nothing,
            0b01 => Self::Clouds,
            0b10 => Self::Mountains,
            0b11 => Self::Fence,
            _ => unreached(),
        }
    }

    /// The bits that stand for the value.
    pub fn value(&self) -> (val: u8)
        ensures
            val == self.spec_value(),
            val < Self::COUNT,
            Self::spec_new(val) == *self,
    {
        match self {
            Self::Nothing => 0b00,
            Self::Clouds => 0b01,
            Self::Mountains => 0b10,
            Self::Fence => 0b11,
        }
    }
}

/// The style of the level's platforms.
#[derive(Debug, Clone, Copy, PartialEq, Eq, Structural)]
pub enum LevelPlatform {
    GreenAndTrees,
    OrangeAndMushrooms,
    BulletBills,
    Clouds,
}

impl LevelPlatform {
    /// The number of values, one for each pattern of the field's 2 bits.
    pub const COUNT: u8 = 4;

    /// The value that the bits `val` stand for, for `val` below `COUNT`.
    pub open spec fn spec_new(val: u8) -> Self {
        match val {
            0b00 => Self::GreenAndTrees,
            0b01 => Self::OrangeAndMushrooms,
            0b10 => Self::BulletBills,
            _ => Self::Clouds,
        }
    }

    /// The bits that stand for the value.
    pub open spec fn spec_value(self) -> u8 {
        match self {
            Self::GreenAndTrees => 0b00,
            Self::OrangeAndMushrooms => 0b01,
            Self::BulletBills => 0b10,
            Self::Clouds => 0b11,
        }
    }

    /// Every pattern of the field's bits stands for exactly one value, and
    /// every value for exactly one pattern.
    pub proof fn lemma_bits_and_values(val: u8, value: Self)
        ensures
            val < Self::COUNT ==> Self::spec_new(val).spec_value() == val,
            value.spec_value() < Self::COUNT,
            Self::spec_new(value.spec_value()) == value,
    {
    }

    /// The value that the bits `val` stand for.
    pub fn new(val: u8) -> (result: Self)
        requires
            val < Self::COUNT,
        ensures
            result == Self::spec_new(val),
            result.spec_value() == val,
    {
        match val {
            0b00 => Self::GreenAndTrees,
            0b01 => Self::OrangeAndMushrooms,
            0b10 => Self::BulletBills,
            0b11 => Self::Clouds,
            _ => unreached(),
        }
    }

    /// The bits that stand for the value.
    pub fn value(&self) -> (val: u8)
        ensures
            val == self.spec_value(),
            val < Self::COUNT,
            Self::spec_new(val) == *self,
    {
        match self {
            Self::GreenAndTrees => 0b00,
            Self::OrangeAndMushrooms => 0b01,
            Self::BulletBills => 0b10,
            Self::Clouds => 0b11,
        }
    }
}

/// The floor and ceiling that the level starts with.
#[derive(Debug, Clone, Copy, PartialEq, Eq, Structural)]
pub enum LevelGround {
    Nothing,
    BasicFloor,
    BasicFloorAndCeiling,
    BasicFloorAndThreeLayerCeiling,
    BasicFloorAndFourLayerCeiling,
    BasicFloorAndEightLayerCeiling,
    FiveLayerFloorAndCeiling,
    FiveLayerFloorAndThreeLayerCeiling,
    FiveLayerFloorAndFourLayerCeiling,
    SixLayerFloorAndCeiling,
    Ceiling,
    SixLayerFloorAndFourLayerCeiling,
    NineLayerFloorAndCeiling,
    BasicFloorThreeLayerGapFiveLayerBricksTwoLayerGapAndCeiling,
    BasicFloorThreeLayerGapFourLayerBricksThreeLayerGapAndCeiling,
    All,
}

impl LevelGround {
    /// The number of values, one for each pattern of the field's 4 bits.
    pub const COUNT: u8 = 16;

    /// The value that the bits `val` stand for, for `val` below `COUNT`.
    pub open spec fn spec_new(val: u8) -> Self {
        match val {
            0b0000 => Self::Nothing,
            0b0001 => Self::BasicFloor,
            0b0010 => Self::BasicFloorAndCeiling,
            0b0011 => Self::BasicFloorAndThreeLayerCeiling,
            0b0100 => Self::BasicFloorAndFourLayerCeiling,
            0b0101 => Self::BasicFloorAndEightLayerCeiling,
            0b0110 => Self::FiveLayerFloorAndCeiling,
            0b0111 => Self::FiveLayerFloorAndThreeLayerCeiling,
            0b1000 => Self::FiveLayerFloorAndFourLayerCeiling,
            0b1001 => Self::SixLayerFloorAndCeiling,
            0b1010 => Self::Ceiling,
            0b1011 => Self::SixLayerFloorAndFourLayerCeiling,
            0b1100 => Self::NineLayerFloorAndCeiling,
            0b1101 => Self::BasicFloorThreeLayerGapFiveLayerBricksTwoLayerGapAndCeiling,
            0b1110 => Self::BasicFloorThreeLayerGapFourLayerBricksThreeLayerGapAndCeiling,
            _ => Self::All,
        }
    }

    /// The bits that stand for the value.
    pub open spec fn spec_value(self) -> u8 {
        match self {
            Self::Nothing => 0b0000,
            Self::BasicFloor => 0b0001,
            Self::BasicFloorAndCeiling => 0b0010,
            Self::BasicFloorAndThreeLayerCeiling => 0b0011,
            Self::BasicFloorAndFourLayerCeiling => 0b0100,
            Self::BasicFloorAndEightLayerCeiling => 0b0101,
            Self::FiveLayerFloorAndCeiling => 0b0110,
            Self::FiveLayerFloorAndThreeLayerCeiling => 0b0111,
            Self::FiveLayerFloorAndFourLayerCeiling => 0b1000,
            Self::SixLayerFloorAndCeiling => 0b1001,
            Self::Ceiling => 0b1010,
            Self::SixLayerFloorAndFourLayerCeiling => 0b1011,
            Self::NineLayerFloorAndCeiling => 0b1100,
            Self::BasicFloorThreeLayerGapFiveLayerBricksTwoLayerGapAndCeiling => 0b1101,
            Self::BasicFloorThreeLayerGapFourLayerBricksThreeLayerGapAndCeiling => 0b1110,
            Self::All => 0b1111,
        }
    }

    /// Every pattern of the field's bits stands for exactly one value, and
    /// every value for exactly one pattern.
    pub proof fn lemma_bits_and_values(val: u8, value: Self)
        ensures
            val < Self::COUNT ==> Self::spec_new(val).spec_value() == val,
            value.spec_value() < Self::COUNT,
            Self::spec_new(value.spec_value()) == value,
    {
    }

    /// The value that the bits `val` stand for.
    pub fn new(val: u8) -> (result: Self)
        requires
            val < Self::COUNT,
        ensures
            result == Self::spec_new(val),
            result.spec_value() == val,
    {
        match val {
            0b0000 => Self::Nothing,
            0b0001 => Self::BasicFloor,
            0b0010 => Self::BasicFloorAndCeiling,
            0b0011 => Self::BasicFloorAndThreeLayerCeiling,
            0b0100 => Self::BasicFloorAndFourLayerCeiling,
            0b0101 => Self::BasicFloorAndEightLayerCeiling,
            0b0110 => Self::FiveLayerFloorAndCeiling,
            0b0111 => Self::FiveLayerFloorAndThreeLayerCeiling,
            0b1000 => Self::FiveLayerFloorAndFourLayerCeiling,
            0b1001 => Self::SixLayerFloorAndCeiling,
            0b1010 => Self::Ceiling,
            0b1011 => Self::SixLayerFloorAndFourLayerCeiling,
            0b1100 => Self::NineLayerFloorAndCeiling,
            0b1101 => Self::BasicFloorThreeLayerGapFiveLayerBricksTwoLayerGapAndCeiling,
            0b1110 => Self::BasicFloorThreeLayerGapFourLayerBricksThreeLayerGapAndCeiling,
            0b1111 => Self::All,
            _ => unreached(),
        }
    }

    /// The bits that stand for the value.
    pub fn value(&self) -> (val: u8)
        ensures
            val == self.spec_value(),
            val < Self::COUNT,
            Self::spec_new(val) == *self,
    {
        match self {
            Self::Nothing => 0b0000,
            Self::BasicFloor => 0b0001,
            Self::BasicFloorAndCeiling => 0b0010,
            Self::BasicFloorAndThreeLayerCeiling => 0b0011,
            Self::BasicFloorAndFourLayerCeiling => 0b0100,
            Self::BasicFloorAndEightLayerCeiling => 0b0101,
            Self::FiveLayerFloorAndCeiling => 0b0110,
            Self::FiveLayerFloorAndThreeLayerCeiling => 0b0111,
            Self::FiveLayerFloorAndFourLayerCeiling => 0b1000,
            Self::SixLayerFloorAndCeiling => 0b1001,
            Self::Ceiling => 0b1010,
            Self::SixLayerFloorAndFourLayerCeiling => 0b1011,
            Self::NineLayerFloorAndCeiling => 0b1100,
            Self::BasicFloorThreeLayerGapFiveLayerBricksTwoLayerGapAndCeiling => 0b1101,
            Self::BasicFloorThreeLayerGapFourLayerBricksThreeLayerGapAndCeiling => 0b1110,
            Self::All => 0b1111,
        }
    }
}

} // verus!
