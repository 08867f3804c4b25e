use smb1_tools::LevelBackground;
use smb1_tools::LevelGround;
use smb1_tools::LevelHeader;
use smb1_tools::LevelPlatform;
use smb1_tools::LevelScenery;
use smb1_tools::LevelStartPosition;
use smb1_tools::LevelTime;

#[test]
fn header_all_zero() {
    let header = LevelHeader::from_bytes(&[0x00, 0x00]);
    assert_eq!(
        header,
        LevelHeader {
            time: LevelTime::NotSet,
            start_position: LevelStartPosition::FallFromSky,
            start_autowalk: false,
            background: LevelBackground::DayTime,
            scenery: LevelScenery::Nothing,
            platform: LevelPlatform::GreenAndTrees,
            ground: LevelGround::Nothing,
        }
    );
}

#[test]
fn header_all_ones() {
    let header = LevelHeader::from_bytes(&[0xFF, 0xFF]);
    assert_eq!(
        header,
        LevelHeader {
            time: LevelTime::T200,
            start_position: LevelStartPosition::HalfwayOffGround,
            start_autowalk: true,
            background: LevelBackground::BlackAndWhite,
            scenery: LevelScenery::Fence,
            platform: LevelPlatform::Clouds,
            ground: LevelGround::All,
        }
    );
}

#[test]
fn header_mixed_fields() {
    // TT A YY BBB = 01 1 10 011, PP SS GGGG = 10 01 0110
    let header = LevelHeader::from_bytes(&[0b0111_0011, 0b1001_0110]);
    assert_eq!(header.time, LevelTime::T400);
    assert!(header.start_autowalk);
    assert_eq!(header.start_position, LevelStartPosition::FallFromSkyAlternate);
    assert_eq!(header.background, LevelBackground::Overwater);
    assert_eq!(header.platform, LevelPlatform::BulletBills);
    assert_eq!(header.scenery, LevelScenery::Clouds);
    assert_eq!(header.ground, LevelGround::FiveLayerFloorAndCeiling);
}

#[test]
fn header_each_field_alone() {
    assert_eq!(LevelHeader::from_bytes(&[0b1000_0000, 0]).time, LevelTime::T300);
    assert!(LevelHeader::from_bytes(&[0b0010_0000, 0]).start_autowalk);
    assert_eq!(
        LevelHeader::from_bytes(&[0b0000_1000, 0]).start_position,
        LevelStartPosition::StartOnGround
    );
    assert_eq!(LevelHeader::from_bytes(&[0b0000_0100, 0]).background, LevelBackground::NightTime);
    assert_eq!(LevelHeader::from_bytes(&[0, 0b0100_0000]).platform, LevelPlatform::OrangeAndMushrooms);
    assert_eq!(LevelHeader::from_bytes(&[0, 0b0010_0000]).scenery, LevelScenery::Mountains);
    assert_eq!(LevelHeader::from_bytes(&[0, 0b0000_1000]).ground,
        LevelGround::FiveLayerFloorAndFourLayerCeiling);
}

#[test]
fn header_ignores_bytes_behind_it() {
    let short = LevelHeader::from_bytes(&[0x9C, 0x41]);
    let long = LevelHeader::from_bytes(&[0x9C, 0x41, 0xFF, 0x00, 0x12]);
    assert_eq!(short, long);
}

#[test]
fn header_fields_determine_its_bytes() {
    for first in 0..=255u8 {
        for second in [0x00u8, 0x01, 0x3C, 0x7F, 0x80, 0xC5, 0xFF] {
            let header = LevelHeader::from_bytes(&[first, second]);
            let autowalk: u8 = if header.start_autowalk { 1 } else { 0 };
            assert_eq!(
                first,
                64 * header.time.value()
                    + 32 * autowalk
                    + 8 * header.start_position.value()
                    + header.background.value()
            );
            assert_eq!(
                second,
                64 * header.platform.value() + 16 * header.scenery.value() + header.ground.value()
            );
        }
    }
}
