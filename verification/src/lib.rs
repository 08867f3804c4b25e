//! Decoder for the level data stored in a Super Mario Bros. cartridge image.
//!
//! A level is stored as a two-byte header, a stream of object placements
//! that ends with `0xFD`, and a stream of enemy placements that ends with
//! `0xFF`. The decoders of this crate turn those bytes into typed records;
//! their contracts say, over sequences of bytes, exactly which records come
//! out and exactly when the bytes are rejected.

pub mod error;
pub mod level;
pub mod rom;
pub mod util;

pub use crate::error::Error;
pub use crate::error::Stream;
pub use crate::level::enemy_data::LevelEnemy;
pub use crate::level::enemy_data::LevelEnemyData;
pub use crate::level::enemy_data::LevelEnemyKind;
pub use crate::level::enemy_data::PipePointer;
pub use crate::level::header::LevelBackground;
pub use crate::level::header::LevelGround;
pub use crate::level::header::LevelHeader;
pub use crate::level::header::LevelPlatform;
pub use crate::level::header::LevelScenery;
pub use crate::level::header::LevelStartPosition;
pub use crate::level::header::LevelTime;
pub use crate::level::object_data::ChangeBackgroundKind;
pub use crate::level::object_data::LevelObject;
pub use crate::level::object_data::LevelObjectData;
pub use crate::level::object_data::LevelObjectKind;
pub use crate::level::object_data::SceneryKind;
pub use crate::level::Level;
pub use crate::rom::levels::RomLevel;
pub use crate::rom::Rom;
pub use crate::rom::ROM_MD5_BYTES;
pub use crate::rom::ROM_SIZE_BYTES;
