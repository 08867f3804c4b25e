//! Structured level data: header, object placements and enemy placements.

use vstd::prelude::*;
use crate::level::enemy_data::LevelEnemy;
use crate::level::enemy_data::LevelEnemyData;
use crate::level::enemy_data::PipePointer;
use crate::level::header::LevelHeader;
use crate::level::object_data::LevelObject;
use crate::level::object_data::LevelObjectData;

pub mod enemy_data;
pub mod header;
pub mod object_data;

verus! {

/// A decoded level.
#[derive(Debug, Clone, PartialEq, Eq)]
pub struct Level {
    pub level_header: LevelHeader,
    pub object_data: LevelObjectData,
    pub enemy_data: LevelEnemyData,
}

/// What a `Level` holds.
pub struct LevelView {
    pub header: LevelHeader,
    pub objects: Seq<LevelObject>,
    pub enemies: Seq<LevelEnemy>,
    pub pipe_pointers: Seq<PipePointer>,
}

impl View for Level {
    type V = LevelView;

    open spec fn view(&self) -> LevelView {
        LevelView {
            header: self.level_header,
            objects: self.object_data@,
            enemies: self.enemy_data@.enemies,
            pipe_pointers: self.enemy_data@.pipe_pointers,
        }
    }
}

} // verus!
