//! An enumeration that maps to and from a value: `new` gives the variant
//! for a value, `value` the value of a variant, and two variants are equal
//! when their values are. The header's fields follow this pattern; so do
//! the two small enumerations here, one over numbers and one over strings.

use smb1_tools::LevelBackground;
use smb1_tools::LevelGround;
use smb1_tools::LevelPlatform;
use smb1_tools::LevelScenery;
use smb1_tools::LevelStartPosition;
use smb1_tools::LevelTime;

#[derive(Debug)]
enum MyNumberEnum {
    Foo,
    Bar,
}

impl MyNumberEnum {
    pub fn new(val: u32) -> Self {
        match val {
            47 => Self::Foo,
            78 => Self::Bar,
            _ => panic!("invalid {} val: {:?}", "MyNumberEnum", val),
        }
    }

    pub fn value(&self) -> u32 {
        match self {
            Self::Foo => 47,
            Self::Bar => 78,
        }
    }
}

impl PartialEq for MyNumberEnum {
    fn eq(&self, other: &Self) -> bool {
        self.value() == other.value()
    }
}

#[derive(Debug)]
enum MyStrEnum {
    Foo,
    Bar,
}

impl MyStrEnum {
    pub fn new(val: &str) -> Self {
        match val {
            "foo" => Self::Foo,
            "bar" => Self::Bar,
            _ => panic!("invalid {} val: {:?}", "MyStrEnum", val),
        }
    }

    pub fn value(&self) -> &str {
        match self {
            Self::Foo => "foo",
            Self::Bar => "bar",
        }
    }
}

impl PartialEq for MyStrEnum {
    fn eq(&self, other: &Self) -> bool {
        self.value() == other.value()
    }
}

#[test]
fn test_num_1() {
    assert_eq!(MyNumberEnum::Foo.value(), 47);
    assert_eq!(MyNumberEnum::Bar.value(), 78);
}

#[test]
fn test_num_2() {
    assert_eq!(MyNumberEnum::new(47), MyNumberEnum::Foo);
    assert_eq!(MyNumberEnum::new(78), MyNumberEnum::Bar);
}

#[test]
fn test_str_1() {
    assert_eq!(MyStrEnum::Foo.value(), "foo");
    assert_eq!(MyStrEnum::Bar.value(), "bar");
}

#[test]
fn test_str_2() {
    assert_eq!(MyStrEnum::new("foo"), MyStrEnum::Foo);
    assert_eq!(MyStrEnum::new("bar"), MyStrEnum::Bar);
}

#[test]
fn level_time_values() {
    assert_eq!(LevelTime::NotSet.value(), 0b00);
    assert_eq!(LevelTime::T400.value(), 0b01);
    assert_eq!(LevelTime::T300.value(), 0b10);
    assert_eq!(LevelTime::T200.value(), 0b11);
}

#[test]
fn level_time_new() {
    assert_eq!(LevelTime::new(0b00), LevelTime::NotSet);
    assert_eq!(LevelTime::new(0b01), LevelTime::T400);
    assert_eq!(LevelTime::new(0b10), LevelTime::T300);
    assert_eq!(LevelTime::new(0b11), LevelTime::T200);
}

#[test]
fn level_start_position_new() {
    assert_eq!(LevelStartPosition::new(0), LevelStartPosition::FallFromSky);
    assert_eq!(LevelStartPosition::new(1), LevelStartPosition::StartOnGround);
    assert_eq!(LevelStartPosition::new(2), LevelStartPosition::FallFromSkyAlternate);
    assert_eq!(LevelStartPosition::new(3), LevelStartPosition::HalfwayOffGround);
}

#[test]
fn level_background_new() {
    assert_eq!(LevelBackground::new(0b000), LevelBackground::DayTime);
    assert_eq!(LevelBackground::new(0b001), LevelBackground::Underwater);
    assert_eq!(LevelBackground::new(0b010), LevelBackground::CastleWall);
    assert_eq!(LevelBackground::new(0b011), LevelBackground::Overwater);
    assert_eq!(LevelBackground::new(0b100), LevelBackground::NightTime);
    assert_eq!(LevelBackground::new(0b101), LevelBackground::DayTimeSnow);
    assert_eq!(LevelBackground::new(0b110), LevelBackground::NightTimeSnow);
    assert_eq!(LevelBackground::new(0b111), LevelBackground::BlackAndWhite);
}

#[test]
fn level_scenery_new() {
    assert_eq!(LevelScenery::new(0), LevelScenery::Nothing);
    assert_eq!(LevelScenery::new(1), LevelScenery::Clouds);
    assert_eq!(LevelScenery::new(2), LevelScenery::Mountains);
    assert_eq!(LevelScenery::new(3), LevelScenery::Fence);
}

#[test]
fn level_platform_new() {
    assert_eq!(LevelPlatform::new(0), LevelPlatform::GreenAndTrees);
    assert_eq!(LevelPlatform::new(1), LevelPlatform::OrangeAndMushrooms);
    assert_eq!(LevelPlatform::new(2), LevelPlatform::BulletBills);
    assert_eq!(LevelPlatform::new(3), LevelPlatform::Clouds);
}

#[test]
fn level_ground_new() {
    assert_eq!(LevelGround::new(0b0000), LevelGround::Nothing);
    assert_eq!(LevelGround::new(0b0001), LevelGround::BasicFloor);
    assert_eq!(LevelGround::new(0b0010), LevelGround::BasicFloorAndCeiling);
    assert_eq!(LevelGround::new(0b0101), LevelGround::BasicFloorAndEightLayerCeiling);
    assert_eq!(LevelGround::new(0b1010), LevelGround::Ceiling);
    assert_eq!(
        LevelGround::new(0b1101),
        LevelGround::BasicFloorThreeLayerGapFiveLayerBricksTwoLayerGapAndCeiling
    );
    assert_eq!(
        LevelGround::new(0b1110),
        LevelGround::BasicFloorThreeLayerGapFourLayerBricksThreeLayerGapAndCeiling
    );
    assert_eq!(LevelGround::new(0b1111), LevelGround::All);
}

#[test]
fn every_bit_pattern_round_trips() {
    for val in 0..LevelTime::COUNT {
        assert_eq!(LevelTime::new(val).value(), val);
    }
    for val in 0..LevelStartPosition::COUNT {
        assert_eq!(LevelStartPosition::new(val).value(), val);
    }
    for val in 0..LevelBackground::COUNT {
        assert_eq!(LevelBackground::new(val).value(), val);
    }
    for val in 0..LevelScenery::COUNT {
        assert_eq!(LevelScenery::new(val).value(), val);
    }
    for val in 0..LevelPlatform::COUNT {
        assert_eq!(LevelPlatform::new(val).value(), val);
    }
    for val in 0..LevelGround::COUNT {
        assert_eq!(LevelGround::new(val).value(), val);
    }
}

#[test]
fn field_widths() {
    assert_eq!(LevelTime::COUNT, 4);
    assert_eq!(LevelStartPosition::COUNT, 4);
    assert_eq!(LevelBackground::COUNT, 8);
    assert_eq!(LevelScenery::COUNT, 4);
    assert_eq!(LevelPlatform::COUNT, 4);
    assert_eq!(LevelGround::COUNT, 16);
}
