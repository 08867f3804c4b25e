//! Object placements of a level: the stream of two-byte records that ends
//! with `0xFD`, and the table that gives each record its kind.

use vstd::prelude::*;
use crate::error::Error;
use crate::error::Stream;
use crate::util::lemma_byte_fields;
use vstd::slice::slice_subrange;

verus! {

/// The byte that ends the object stream.
pub const OBJECT_TERMINATOR: u8 = 0xFD;

/// The objects of a level, in the order of the stream.
#[derive(Debug, Clone, PartialEq, Eq)]
pub struct LevelObjectData {
    pub objects: Vec<LevelObject>,
}

impl View for LevelObjectData {
    type V = Seq<LevelObject>;

    open spec fn view(&self) -> Seq<LevelObject> {
        self.objects@
    }
}

/// One object placement.
#[derive(Debug, Clone, Copy, PartialEq, Eq, Structural)]
pub struct LevelObject {
    pub kind: LevelObjectKind,
    pub x_coordinate: u8,
    pub y_coordinate: u8,
    pub new_page_flag: bool,
}

/// Scenery selected by a layout-changing object.
#[derive(Debug, Clone, Copy, PartialEq, Eq, Structural)]
pub enum SceneryKind {
    Nothing,
    Clouds,
    Mountains,
    Fences,
}

/// Background selected by a background-changing object.
#[derive(Debug, Clone, Copy, PartialEq, Eq, Structural)]
pub enum ChangeBackgroundKind {
    Nothing,
    InWater,
    CastleWall,
    OverWater,
    Night,
    Snow,
    NightAndSnow,
    NightAndCastle,
}

/// What an object record places. `Invalid` stands for a code to which the
/// format gives no meaning; it is a result like any other.
#[derive(Debug, Clone, Copy, PartialEq, Eq, Structural)]
pub enum LevelObjectKind {
    QuestionBlockPowerup,
    QuestionBlockCoin,
    HiddenBlockCoin,
    HiddenBlockExtraLife,
    BrickPowerup,
    BrickVine,
    BrickStar,
    BrickMultiCoinBlock,
    BrickExtraLife,
    SidewaysPipe,
    UsedBlock,
    Spring,
    ReverseLPipe,
    FlagPole,
    CastleBridge,
    Nothing,
    IslandOrCannon(u8),
    HorizontalBrick(u8),
    HorizontalBlock(u8),
    HorizontalCoin(u8),
    VerticalBrick(u8),
    VerticalBlock(u8),
    PipeNoEntry(u8),
    PipeEntry(u8),
    Hole(u8),
    BalanceHorizontalRope(u8),
    BridgeY7(u8),
    BridgeY8(u8),
    BridgeY10(u8),
    FilledHole(u8),
    HorizontalQuestionBlockY3(u8),
    HorizontalQuestionBlockY7(u8),
    PageSkip(u8),
    CastleAxe,
    AxeRope,
    ScrollStop,
    ScrollStopWarpZone,
    RedCheepCheep,
    ContinuousBulletBillsOrCheepCheeps,
    StopContinuation,
    LoopCommand,
    Invalid,
    LayoutEmpty(SceneryKind),
    LayoutFloor1Mddle0Ceiling0(SceneryKind),
    LayoutFloor1Mddle0Ceiling1(SceneryKind),
    LayoutFloor1Mddle0Ceiling3(SceneryKind),
    LayoutFloor1Mddle0Ceiling4(SceneryKind),
    LayoutFloor1Mddle0Ceiling8(SceneryKind),
    LayoutFloor4Mddle0Ceiling1(SceneryKind),
    LayoutFloor4Mddle0Ceiling3(SceneryKind),
    LayoutFloor4Mddle0Ceiling4(SceneryKind),
    LayoutFloor5Mddle0Ceiling1(SceneryKind),
    LayoutFloor0Mddle0Ceiling1(SceneryKind),
    LayoutFloor5Mddle0Ceiling4(SceneryKind),
    LayoutFloor8Mddle0Ceiling1(SceneryKind),
    LayoutFloor1Mddle5Ceiling1(SceneryKind),
    LayoutFloor1Mddle4Ceiling1(SceneryKind),
    LayoutFull(SceneryKind),
    ChangeBackground(ChangeBackgroundKind),
    LiftRope,
    /// Length of the rope.
    BalanceLiftVerticalRope(u8),
    BigCastle,
    /// Width of the staircase.
    Staircase(u8),
    /// Row of the pipe.
    TallReverseLPipe(u8),
}

impl LevelObjectData {
    /// Whether a scan that starts at `pos` and steps over two-byte records
    /// finds the terminator where a record would begin.
    pub open spec fn spec_terminated(bytes: Seq<u8>, pos: int) -> bool
        decreases bytes.len() - pos,
    {
        if pos < 0 || pos >= bytes.len() {
            false
        } else if bytes[pos] == OBJECT_TERMINATOR {
            true
        } else if pos + 2 > bytes.len() {
            false
        } else {
            Self::spec_terminated(bytes, pos + 2)
        }
    }

    /// The records from `pos` up to the terminator, in stream order.
    pub open spec fn spec_objects(bytes: Seq<u8>, pos: int) -> Seq<LevelObject>
        decreases bytes.len() - pos,
    {
        if pos < 0 || pos + 2 > bytes.len() || bytes[pos] == OBJECT_TERMINATOR {
            Seq::empty()
        } else {
            seq![LevelObject::spec_from_bytes(bytes[pos], bytes[pos + 1])] + Self::spec_objects(
                bytes,
                pos + 2,
            )
        }
    }

    /// What decoding `bytes` gives: the records before the terminator, or
    /// the error of a stream that has none.
    pub open spec fn spec_from_bytes(bytes: Seq<u8>) -> Result<Seq<LevelObject>, Error> {
        if Self::spec_terminated(bytes, 0) {
            Ok(Self::spec_objects(bytes, 0))
        } else {
            Err(Error::MalformedStream(Stream::Objects))
        }
    }

    /// Where the records of a terminated stream come from: the record
    /// numbered `i` is decoded from the two bytes at `pos + 2 * i`, the
    /// first of which is not the terminator, and the terminator stands
    /// right behind the last record.
    pub proof fn lemma_record_positions(bytes: Seq<u8>, pos: int)
        requires
            Self::spec_terminated(bytes, pos),
        ensures
            0 <= pos + 2 * Self::spec_objects(bytes, pos).len() < bytes.len(),
            bytes[pos + 2 * Self::spec_objects(bytes, pos).len()] == OBJECT_TERMINATOR,
            forall|i: int|
                0 <= i < Self::spec_objects(bytes, pos).len() ==> {
                    &&& bytes[pos + 2 * i] != OBJECT_TERMINATOR
                    &&& #[trigger] Self::spec_objects(bytes, pos)[i] == LevelObject::spec_from_bytes(
                        bytes[pos + 2 * i],
                        bytes[pos + 2 * i + 1],
                    )
                },
        decreases bytes.len() - pos,
    {
        if bytes[pos] != OBJECT_TERMINATOR {
            Self::lemma_record_positions(bytes, pos + 2);
            let rest = Self::spec_objects(bytes, pos + 2);
            assert forall|i: int| 0 <= i < Self::spec_objects(bytes, pos).len() implies {
                &&& bytes[pos + 2 * i] != OBJECT_TERMINATOR
                &&& #[trigger] Self::spec_objects(bytes, pos)[i] == LevelObject::spec_from_bytes(
                    bytes[pos + 2 * i],
                    bytes[pos + 2 * i + 1],
                )
            } by {
                if i > 0 {
                    assert(Self::spec_objects(bytes, pos)[i] == rest[i - 1]);
                }
            }
        }
    }

    /// The first byte of the record numbered `i`.
    pub open spec fn spec_first_byte(bytes: Seq<u8>, i: int) -> u8 {
        bytes[2 * i]
    }

    /// A stream is terminated if the terminator stands at an even offset
    /// `2 * count` and at no even offset before it; it then holds `count`
    /// records.
    pub proof fn lemma_terminator_found(bytes: Seq<u8>, count: int)
        requires
            0 <= 2 * count < bytes.len(),
            bytes[2 * count] == OBJECT_TERMINATOR,
            forall|i: int| 0 <= i < count ==> Self::spec_first_byte(bytes, i) != OBJECT_TERMINATOR,
        ensures
            Self::spec_from_bytes(bytes) is Ok,
            Self::spec_objects(bytes, 0).len() == count,
    {
        Self::lemma_terminator_found_from(bytes, count, 0);
    }

    proof fn lemma_terminator_found_from(bytes: Seq<u8>, count: int, done: int)
        requires
            0 <= done <= count,
            2 * count < bytes.len(),
            bytes[2 * count] == OBJECT_TERMINATOR,
            forall|i: int| 0 <= i < count ==> Self::spec_first_byte(bytes, i) != OBJECT_TERMINATOR,
        ensures
            Self::spec_terminated(bytes, 2 * done),
            Self::spec_objects(bytes, 2 * done).len() == count - done,
        decreases count - done,
    {
        if done < count {
            assert(Self::spec_first_byte(bytes, done) != OBJECT_TERMINATOR);
            Self::lemma_terminator_found_from(bytes, count, done + 1);
        }
    }

    /// No object is decoded from the terminator: the column and the row of
    /// an object are the two nibbles of its record's first byte, and they
    /// never spell `0xFD`.
    pub proof fn lemma_no_object_from_terminator(bytes: Seq<u8>, pos: int)
        ensures
            forall|i: int|
                0 <= i < Self::spec_objects(bytes, pos).len() ==> {
                    let object = #[trigger] Self::spec_objects(bytes, pos)[i];
                    16 * object.x_coordinate + object.y_coordinate != OBJECT_TERMINATOR
                },
        decreases bytes.len() - pos,
    {
        if !(pos < 0 || pos + 2 > bytes.len() || bytes[pos] == OBJECT_TERMINATOR) {
            Self::lemma_no_object_from_terminator(bytes, pos + 2);
            let rest = Self::spec_objects(bytes, pos + 2);
            assert forall|i: int| 0 <= i < Self::spec_objects(bytes, pos).len() implies {
                let object = #[trigger] Self::spec_objects(bytes, pos)[i];
                16 * object.x_coordinate + object.y_coordinate != OBJECT_TERMINATOR
            } by {
                if i > 0 {
                    assert(Self::spec_objects(bytes, pos)[i] == rest[i - 1]);
                }
            }
        }
    }

    /// Decodes the object stream that starts at the first byte of `bytes`.
    /// Bytes behind the terminator are not looked at.
    pub fn from_bytes(bytes: &[u8]) -> (result: Result<Self, Error>)
        ensures
            match result {
                Ok(data) => Self::spec_from_bytes(bytes@) == Ok::<Seq<LevelObject>, Error>(data@),
                Err(e) => Self::spec_from_bytes(bytes@) == Err::<Seq<LevelObject>, Error>(e),
            },
    {
        let mut objects: Vec<LevelObject> = Vec::new();

        // process record by record
        let mut idx: usize = 0;
        loop
            invariant
                idx <= bytes@.len(),
                Self::spec_terminated(bytes@, 0) == Self::spec_terminated(bytes@, idx as int),
                Self::spec_objects(bytes@, 0) == objects@ + Self::spec_objects(bytes@, idx as int),
            ensures
                idx < bytes@.len(),
                bytes@[idx as int] == OBJECT_TERMINATOR,
            decreases bytes@.len() - idx,
        {
            if idx >= bytes.len() {
                return Err(Error::MalformedStream(Stream::Objects));
            }
            let byte: u8 = bytes[idx];

            // 0xFD is the end level marker
            if byte == OBJECT_TERMINATOR {
                break ;
            }
            if bytes.len() - idx < 2 {
                return Err(Error::MalformedStream(Stream::Objects));
            }
            let object = LevelObject::from_bytes(slice_subrange(bytes, idx, bytes.len()));

            proof {
                let rest = Self::spec_objects(bytes@, idx as int + 2);
                assert((objects@ + seq![object]) + rest == objects@ + (seq![object] + rest));
            }
            objects.push(object);
            idx += 2;
        }
        assert(objects@ + Seq::<LevelObject>::empty() == objects@);
        Ok(Self { objects })
    }
}

impl LevelObject {
    /// The object that the record `first`, `second` places: the column in
    /// the high nibble of `first`, the row in its low nibble, the page flag
    /// in the top bit of `second`, and the kind by the row and the
    /// remaining seven bits of `second`.
    pub open spec fn spec_from_bytes(first: u8, second: u8) -> LevelObject {
        LevelObject {
            kind: LevelObjectKind::spec_new(first % 16, second % 128),
            x_coordinate: first / 16,
            y_coordinate: first % 16,
            new_page_flag: second >= 128,
        }
    }

    /// Decodes the record in the first two bytes of `bytes`.
    ///
    /// ```text
    /// XXXXYYYY POOOOOOO
    /// ```
    pub fn from_bytes(bytes: &[u8]) -> (object: Self)
        requires
            bytes@.len() >= 2,
        ensures
            object == Self::spec_from_bytes(bytes@[0], bytes@[1]),
    {
        proof {
            lemma_byte_fields(bytes@[0]);
            lemma_byte_fields(bytes@[1]);
        }
        let x_coordinate: u8 = bytes[0] >> 4;
        let y_coordinate: u8 = bytes[0] & 0b00001111;
        let new_page_flag = bytes[1] & 0b10000000 != 0;
        let kind = Self::parse_object_kind(bytes);

        Self { kind, x_coordinate, y_coordinate, new_page_flag }
    }

    fn parse_object_kind(bytes: &[u8]) -> (kind: LevelObjectKind)
        requires
            bytes@.len() >= 2,
        ensures
            kind == LevelObjectKind::spec_new(bytes@[0] % 16, bytes@[1] % 128),
    {
        proof {
            lemma_byte_fields(bytes@[0]);
            lemma_byte_fields(bytes@[1]);
        }
        let y_coordinate: u8 = bytes[0] & 0b00001111;
        let byte: u8 = bytes[1] & 0b01111111;
        LevelObjectKind::new(y_coordinate, byte)
    }
}

impl SceneryKind {
    /// The scenery numbered `group`, for `group` below four.
    pub open spec fn spec_new(group: u8) -> SceneryKind {
        if group == 0 {
            SceneryKind::Nothing
        } else if group == 1 {
            SceneryKind::Clouds
        } else if group == 2 {
            SceneryKind::Mountains
        } else {
            SceneryKind::Fences
        }
    }
}

impl ChangeBackgroundKind {
    /// The background numbered `index`, for `index` below eight.
    pub open spec fn spec_new(index: u8) -> ChangeBackgroundKind {
        match index {
            0 => ChangeBackgroundKind::Nothing,
            1 => ChangeBackgroundKind::InWater,
            2 => ChangeBackgroundKind::CastleWall,
            3 => ChangeBackgroundKind::OverWater,
            4 => ChangeBackgroundKind::Night,
            5 => ChangeBackgroundKind::Snow,
            6 => ChangeBackgroundKind::NightAndSnow,
            _ => ChangeBackgroundKind::NightAndCastle,
        }
    }
}

impl LevelObjectKind {
    /// Rows `0x0` to `0xb`. The code's high nibble selects a group, the low
    /// nibble an object of the group or the size of one.
    pub open spec fn spec_main_band(code: u8) -> LevelObjectKind {
        let group = code / 16;
        let low = code % 16;
        if group == 0 {
            match low {
                0x0 => Self::QuestionBlockPowerup,
                0x1 => Self::QuestionBlockCoin,
                0x2 => Self::HiddenBlockCoin,
                0x3 => Self::HiddenBlockExtraLife,
                0x4 => Self::BrickPowerup,
                0x5 => Self::BrickVine,
                0x6 => Self::BrickStar,
                0x7 => Self::BrickMultiCoinBlock,
                0x8 => Self::BrickExtraLife,
                0x9 => Self::SidewaysPipe,
                0xa => Self::UsedBlock,
                0xb => Self::Spring,
                _ => Self::Invalid,
            }
        } else if group == 1 {
            Self::IslandOrCannon((low + 1) as u8)
        } else if group == 2 {
            Self::HorizontalBrick((low + 1) as u8)
        } else if group == 3 {
            Self::HorizontalBlock((low + 1) as u8)
        } else if group == 4 {
            Self::HorizontalCoin((low + 1) as u8)
        } else if group == 5 {
            if low <= 0xb {
                Self::VerticalBrick((low + 1) as u8)
            } else {
                Self::Invalid
            }
        } else if group == 6 {
            if low <= 0xb {
                Self::VerticalBlock((low + 1) as u8)
            } else {
                Self::Invalid
            }
        } else if low <= 7 {
            Self::PipeNoEntry((low + 2) as u8)
        } else {
            Self::PipeEntry((low - 6) as u8)
        }
    }

    /// Row `0xc`: eight groups of sixteen sizes.
    pub open spec fn spec_band_c(code: u8) -> LevelObjectKind {
        let size = (code % 16 + 1) as u8;
        match code / 16 {
            0 => Self::Hole(size),
            1 => Self::BalanceHorizontalRope(size),
            2 => Self::BridgeY7(size),
            3 => Self::BridgeY8(size),
            4 => Self::BridgeY10(size),
            5 => Self::FilledHole(size),
            6 => Self::HorizontalQuestionBlockY3(size),
            _ => Self::HorizontalQuestionBlockY7(size),
        }
    }

    /// Row `0xd`: page skips below `0x40`, then twelve single objects.
    pub open spec fn spec_band_d(code: u8) -> LevelObjectKind {
        if code < 0x40 {
            Self::PageSkip(code)
        } else {
            match code {
                0x40 => Self::ReverseLPipe,
                0x41 => Self::FlagPole,
                0x42 => Self::CastleAxe,
                0x43 => Self::AxeRope,
                0x44 => Self::CastleBridge,
                0x45 => Self::ScrollStopWarpZone,
                0x46 => Self::ScrollStop,
                0x47 => Self::ScrollStop,
                0x48 => Self::RedCheepCheep,
                0x49 => Self::ContinuousBulletBillsOrCheepCheeps,
                0x4a => Self::StopContinuation,
                0x4b => Self::LoopCommand,
                _ => Self::Invalid,
            }
        }
    }

    /// The ground layout numbered `layout`, for `layout` below sixteen, with
    /// its scenery.
    pub open spec fn spec_layout(layout: u8, scenery: SceneryKind) -> LevelObjectKind {
        match layout {
            0 => Self::LayoutEmpty(scenery),
            1 => Self::LayoutFloor1Mddle0Ceiling0(scenery),
            2 => Self::LayoutFloor1Mddle0Ceiling1(scenery),
            3 => Self::LayoutFloor1Mddle0Ceiling3(scenery),
            4 => Self::LayoutFloor1Mddle0Ceiling4(scenery),
            5 => Self::LayoutFloor1Mddle0Ceiling8(scenery),
            6 => Self::LayoutFloor4Mddle0Ceiling1(scenery),
            7 => Self::LayoutFloor4Mddle0Ceiling3(scenery),
            8 => Self::LayoutFloor4Mddle0Ceiling4(scenery),
            9 => Self::LayoutFloor5Mddle0Ceiling1(scenery),
            10 => Self::LayoutFloor0Mddle0Ceiling1(scenery),
            11 => Self::LayoutFloor5Mddle0Ceiling4(scenery),
            12 => Self::LayoutFloor8Mddle0Ceiling1(scenery),
            13 => Self::LayoutFloor1Mddle5Ceiling1(scenery),
            14 => Self::LayoutFloor1Mddle4Ceiling1(scenery),
            _ => Self::LayoutFull(scenery),
        }
    }

    /// Row `0xe`: below `0x40` a ground layout in the low nibble and a
    /// scenery in the two bits above it, then eight backgrounds.
    pub open spec fn spec_band_e(code: u8) -> LevelObjectKind {
        if code < 0x40 {
            Self::spec_layout(code % 16, SceneryKind::spec_new(code / 16))
        } else if code < 0x48 {
            Self::ChangeBackground(ChangeBackgroundKind::spec_new((code - 0x40) as u8))
        } else {
            Self::Invalid
        }
    }

    /// Row `0xf`.
    pub open spec fn spec_band_f(code: u8) -> LevelObjectKind {
        if code == 0x00 {
            Self::LiftRope
        } else if 0x10 <= code <= 0x1f {
            Self::BalanceLiftVerticalRope((code % 16 + 1) as u8)
        } else if code == 0x20 {
            Self::BigCastle
        } else if 0x30 <= code <= 0x38 {
            Self::Staircase((code % 16 + 1) as u8)
        } else if 0x43 <= code <= 0x4a {
            Self::TallReverseLPipe(code % 16)
        } else if code == 0x60 {
            Self::Nothing
        } else {
            Self::Invalid
        }
    }

    /// The kind of the object with the seven-bit code `byte` on row
    /// `y_coordinate`. Rows above `0xf` and codes above `0x7f` do not occur
    /// in a record; they are given `Invalid`.
    pub open spec fn spec_new(y_coordinate: u8, byte: u8) -> LevelObjectKind {
        if byte > 0x7f {
            Self::Invalid
        } else if y_coordinate <= 0xb {
            Self::spec_main_band(byte)
        } else if y_coordinate == 0xc {
            Self::spec_band_c(byte)
        } else if y_coordinate == 0xd {
            Self::spec_band_d(byte)
        } else if y_coordinate == 0xe {
            Self::spec_band_e(byte)
        } else if y_coordinate == 0xf {
            Self::spec_band_f(byte)
        } else {
            Self::Invalid
        }
    }

    /// The band of a row: the rows `0x0` to `0xb` share one table, each of
    /// the rows `0xc` to `0xf` has its own.
    pub open spec fn spec_band(y_coordinate: u8) -> u8 {
        if y_coordinate <= 0xb {
            0xb
        } else {
            y_coordinate
        }
    }

    /// A kind tells where it came from: two records with the same kind have
    /// the same code, in the same band. The exceptions are `Invalid`, which
    /// stands for every code without a meaning, and `ScrollStop`, which two
    /// codes of row `0xd` share.
    pub proof fn lemma_kind_determines_code(y1: u8, code1: u8, y2: u8, code2: u8)
        requires
            y1 <= 0xf,
            y2 <= 0xf,
            code1 <= 0x7f,
            code2 <= 0x7f,
            Self::spec_new(y1, code1) == Self::spec_new(y2, code2),
            Self::spec_new(y1, code1) != Self::Invalid,
            Self::spec_new(y1, code1) != Self::ScrollStop,
        ensures
            Self::spec_band(y1) == Self::spec_band(y2),
            code1 == code2,
    {
    }

    /// The number that a kind carries is the low nibble of the code, moved
    /// by the constant of the code's range; so it lies in the range stated
    /// here for each kind.
    pub proof fn lemma_parameter_range(y_coordinate: u8, byte: u8)
        requires
            y_coordinate <= 0xf,
            byte <= 0x7f,
        ensures
            match Self::spec_new(y_coordinate, byte) {
                Self::IslandOrCannon(n)
                | Self::HorizontalBrick(n)
                | Self::HorizontalBlock(n)
                | Self::HorizontalCoin(n)
                | Self::Hole(n)
                | Self::BalanceHorizontalRope(n)
                | Self::BridgeY7(n)
                | Self::BridgeY8(n)
                | Self::BridgeY10(n)
                | Self::FilledHole(n)
                | Self::HorizontalQuestionBlockY3(n)
                | Self::HorizontalQuestionBlockY7(n)
                | Self::BalanceLiftVerticalRope(n) => n == byte % 16 + 1 && 1 <= n <= 16,
                Self::VerticalBrick(n) | Self::VerticalBlock(n) => n == byte % 16 + 1 && 1 <= n
                    <= 12,
                Self::Staircase(n) => n == byte % 16 + 1 && 1 <= n <= 9,
                Self::PipeNoEntry(n) => n == byte % 16 + 2 && 2 <= n <= 9,
                Self::PipeEntry(n) => n == byte % 16 - 6 && 2 <= n <= 9,
                Self::TallReverseLPipe(n) => n == byte % 16 && 3 <= n <= 10,
                Self::PageSkip(n) => n == byte && n <= 0x3f,
                _ => true,
            },
    {
    }

    /// Classifies an object by its row and its seven-bit code.
    pub fn new(y_coordinate: u8, byte: u8) -> (kind: Self)
        requires
            y_coordinate <= 0xf,
            byte <= 0x7f,
        ensures
            kind == Self::spec_new(y_coordinate, byte),
    {
        let low_nibble: u8 = byte & 0x0f;
        proof {
            lemma_byte_fields(byte);
        }

        match (y_coordinate, byte) {
            // Y offset 0x0 -> 0xb
            (0x0..=0xb, 0x00) => Self::QuestionBlockPowerup,
            (0x0..=0xb, 0x01) => Self::QuestionBlockCoin,
            (0x0..=0xb, 0x02) => Self::HiddenBlockCoin,
            (0x0..=0xb, 0x03) => Self::HiddenBlockExtraLife,
            (0x0..=0xb, 0x04) => Self::BrickPowerup,
            (0x0..=0xb, 0x05) => Self::BrickVine,
            (0x0..=0xb, 0x06) => Self::BrickStar,
            (0x0..=0xb, 0x07) => Self::BrickMultiCoinBlock,
            (0x0..=0xb, 0x08) => Self::BrickExtraLife,
            (0x0..=0xb, 0x09) => Self::SidewaysPipe,
            (0x0..=0xb, 0x0a) => Self::UsedBlock,
            (0x0..=0xb, 0x0b) => Self::Spring,
            (0x0..=0xb, 0x0c..=0x0f) => Self::Invalid,

            (0x0..=0xb, 0x10..=0x1f) => Self::IslandOrCannon(low_nibble + 1),
            (0x0..=0xb, 0x20..=0x2f) => Self::HorizontalBrick(low_nibble + 1),
            (0x0..=0xb, 0x30..=0x3f) => Self::HorizontalBlock(low_nibble + 1),
            (0x0..=0xb, 0x40..=0x4f) => Self::HorizontalCoin(low_nibble + 1),

            // a column is at most twelve high
            (0x0..=0xb, 0x50..=0x5b) => Self::VerticalBrick(low_nibble + 1),
            (0x0..=0xb, 0x5c..=0x5f) => Self::Invalid,

            (0x0..=0xb, 0x60..=0x6b) => Self::VerticalBlock(low_nibble + 1),
            (0x0..=0xb, 0x6c..=0x6f) => Self::Invalid,

            (0x0..=0xb, 0x70..=0x77) => Self::PipeNoEntry(low_nibble + 2),
            (0x0..=0xb, 0x78..=0x7f) => Self::PipeEntry(low_nibble - 6),

            // Y offset 0xc
            (0xc, 0x00..=0x0f) => Self::Hole(low_nibble + 1),
            (0xc, 0x10..=0x1f) => Self::BalanceHorizontalRope(low_nibble + 1),
            (0xc, 0x20..=0x2f) => Self::BridgeY7(low_nibble + 1),
            (0xc, 0x30..=0x3f) => Self::BridgeY8(low_nibble + 1),
            (0xc, 0x40..=0x4f) => Self::BridgeY10(low_nibble + 1),
            (0xc, 0x50..=0x5f) => Self::FilledHole(low_nibble + 1),
            (0xc, 0x60..=0x6f) => Self::HorizontalQuestionBlockY3(low_nibble + 1),
            (0xc, 0x70..=0x7f) => Self::HorizontalQuestionBlockY7(low_nibble + 1),

            // Y offset 0xd
            (0xd, 0x00..=0x3f) => Self::PageSkip(byte),
            (0xd, 0x40) => Self::ReverseLPipe,
            (0xd, 0x41) => Self::FlagPole,
            (0xd, 0x42) => Self::CastleAxe,
            (0xd, 0x43) => Self::AxeRope,
            (0xd, 0x44) => Self::CastleBridge,
            (0xd, 0x45) => Self::ScrollStopWarpZone,
            (0xd, 0x46) => Self::ScrollStop,
            (0xd, 0x47) => Self::ScrollStop,
            (0xd, 0x48) => Self::RedCheepCheep,
            (0xd, 0x49) => Self::ContinuousBulletBillsOrCheepCheeps,
            (0xd, 0x4a) => Self::StopContinuation,
            (0xd, 0x4b) => Self::LoopCommand,
            (0xd, 0x4c..=0x4f) => Self::Invalid,
            (0xd, 0x50..=0x7f) => Self::Invalid,

            // Y offset 0xe
            (0xe, 0x00) => Self::LayoutEmpty(SceneryKind::Nothing),
            (0xe, 0x01) => Self::LayoutFloor1Mddle0Ceiling0(SceneryKind::Nothing),
            (0xe, 0x02) => Self::LayoutFloor1Mddle0Ceiling1(SceneryKind::Nothing),
            (0xe, 0x03) => Self::LayoutFloor1Mddle0Ceiling3(SceneryKind::Nothing),
            (0xe, 0x04) => Self::LayoutFloor1Mddle0Ceiling4(SceneryKind::Nothing),
            (0xe, 0x05) => Self::LayoutFloor1Mddle0Ceiling8(SceneryKind::Nothing),
            (0xe, 0x06) => Self::LayoutFloor4Mddle0Ceiling1(SceneryKind::Nothing),
            (0xe, 0x07) => Self::LayoutFloor4Mddle0Ceiling3(SceneryKind::Nothing),
            (0xe, 0x08) => Self::LayoutFloor4Mddle0Ceiling4(SceneryKind::Nothing),
            (0xe, 0x09) => Self::LayoutFloor5Mddle0Ceiling1(SceneryKind::Nothing),
            (0xe, 0x0a) => Self::LayoutFloor0Mddle0Ceiling1(SceneryKind::Nothing),
            (0xe, 0x0b) => Self::LayoutFloor5Mddle0Ceiling4(SceneryKind::Nothing),
            (0xe, 0x0c) => Self::LayoutFloor8Mddle0Ceiling1(SceneryKind::Nothing),
            (0xe, 0x0d) => Self::LayoutFloor1Mddle5Ceiling1(SceneryKind::Nothing),
            (0xe, 0x0e) => Self::LayoutFloor1Mddle4Ceiling1(SceneryKind::Nothing),
            (0xe, 0x0f) => Self::LayoutFull(SceneryKind::Nothing),
            // ---
            (0xe, 0x10) => Self::LayoutEmpty(SceneryKind::Clouds),
            (0xe, 0x11) => Self::LayoutFloor1Mddle0Ceiling0(SceneryKind::Clouds),
            (0xe, 0x12) => Self::LayoutFloor1Mddle0Ceiling1(SceneryKind::Clouds),
            (0xe, 0x13) => Self::LayoutFloor1Mddle0Ceiling3(SceneryKind::Clouds),
            (0xe, 0x14) => Self::LayoutFloor1Mddle0Ceiling4(SceneryKind::Clouds),
            (0xe, 0x15) => Self::LayoutFloor1Mddle0Ceiling8(SceneryKind::Clouds),
            (0xe, 0x16) => Self::LayoutFloor4Mddle0Ceiling1(SceneryKind::Clouds),
            (0xe, 0x17) => Self::LayoutFloor4Mddle0Ceiling3(SceneryKind::Clouds),
            (0xe, 0x18) => Self::LayoutFloor4Mddle0Ceiling4(SceneryKind::Clouds),
            (0xe, 0x19) => Self::LayoutFloor5Mddle0Ceiling1(SceneryKind::Clouds),
            (0xe, 0x1a) => Self::LayoutFloor0Mddle0Ceiling1(SceneryKind::Clouds),
            (0xe, 0x1b) => Self::LayoutFloor5Mddle0Ceiling4(SceneryKind::Clouds),
            (0xe, 0x1c) => Self::LayoutFloor8Mddle0Ceiling1(SceneryKind::Clouds),
            (0xe, 0x1d) => Self::LayoutFloor1Mddle5Ceiling1(SceneryKind::Clouds),
            (0xe, 0x1e) => Self::LayoutFloor1Mddle4Ceiling1(SceneryKind::Clouds),
            (0xe, 0x1f) => Self::LayoutFull(SceneryKind::Clouds),
            // ---
            (0xe, 0x20) => Self::LayoutEmpty(SceneryKind::Mountains),
            (0xe, 0x21) => Self::LayoutFloor1Mddle0Ceiling0(SceneryKind::Mountains),
            (0xe, 0x22) => Self::LayoutFloor1Mddle0Ceiling1(SceneryKind::Mountains),
            (0xe, 0x23) => Self::LayoutFloor1Mddle0Ceiling3(SceneryKind::Mountains),
            (0xe, 0x24) => Self::LayoutFloor1Mddle0Ceiling4(SceneryKind::Mountains),
            (0xe, 0x25) => Self::LayoutFloor1Mddle0Ceiling8(SceneryKind::Mountains),
            (0xe, 0x26) => Self::LayoutFloor4Mddle0Ceiling1(SceneryKind::Mountains),
            (0xe, 0x27) => Self::LayoutFloor4Mddle0Ceiling3(SceneryKind::Mountains),
            (0xe, 0x28) => Self::LayoutFloor4Mddle0Ceiling4(SceneryKind::Mountains),
            (0xe, 0x29) => Self::LayoutFloor5Mddle0Ceiling1(SceneryKind::Mountains),
            (0xe, 0x2a) => Self::LayoutFloor0Mddle0Ceiling1(SceneryKind::Mountains),
            (0xe, 0x2b) => Self::LayoutFloor5Mddle0Ceiling4(SceneryKind::Mountains),
            (0xe, 0x2c) => Self::LayoutFloor8Mddle0Ceiling1(SceneryKind::Mountains),
            (0xe, 0x2d) => Self::LayoutFloor1Mddle5Ceiling1(SceneryKind::Mountains),
            (0xe, 0x2e) => Self::LayoutFloor1Mddle4Ceiling1(SceneryKind::Mountains),
            (0xe, 0x2f) => Self::LayoutFull(SceneryKind::Mountains),
            // ---
            (0xe, 0x30) => Self::LayoutEmpty(SceneryKind::Fences),
            (0xe, 0x31) => Self::LayoutFloor1Mddle0Ceiling0(SceneryKind::Fences),
            (0xe, 0x32) => Self::LayoutFloor1Mddle0Ceiling1(SceneryKind::Fences),
            (0xe, 0x33) => Self::LayoutFloor1Mddle0Ceiling3(SceneryKind::Fences),
            (0xe, 0x34) => Self::LayoutFloor1Mddle0Ceiling4(SceneryKind::Fences),
            (0xe, 0x35) => Self::LayoutFloor1Mddle0Ceiling8(SceneryKind::Fences),
            (0xe, 0x36) => Self::LayoutFloor4Mddle0Ceiling1(SceneryKind::Fences),
            (0xe, 0x37) => Self::LayoutFloor4Mddle0Ceiling3(SceneryKind::Fences),
            (0xe, 0x38) => Self::LayoutFloor4Mddle0Ceiling4(SceneryKind::Fences),
            (0xe, 0x39) => Self::LayoutFloor5Mddle0Ceiling1(SceneryKind::Fences),
            (0xe, 0x3a) => Self::LayoutFloor0Mddle0Ceiling1(SceneryKind::Fences),
            (0xe, 0x3b) => Self::LayoutFloor5Mddle0Ceiling4(SceneryKind::Fences),
            (0xe, 0x3c) => Self::LayoutFloor8Mddle0Ceiling1(SceneryKind::Fences),
            (0xe, 0x3d) => Self::LayoutFloor1Mddle5Ceiling1(SceneryKind::Fences),
            (0xe, 0x3e) => Self::LayoutFloor1Mddle4Ceiling1(SceneryKind::Fences),
            (0xe, 0x3f) => Self::LayoutFull(SceneryKind::Fences),
            // ---
            (0xe, 0x40) => Self::ChangeBackground(ChangeBackgroundKind::Nothing),
            (0xe, 0x41) => Self::ChangeBackground(ChangeBackgroundKind::InWater),
            (0xe, 0x42) => Self::ChangeBackground(ChangeBackgroundKind::CastleWall),
            (0xe, 0x43) => Self::ChangeBackground(ChangeBackgroundKind::OverWater),
            (0xe, 0x44) => Self::ChangeBackground(ChangeBackgroundKind::Night),
            (0xe, 0x45) => Self::ChangeBackground(ChangeBackgroundKind::Snow),
            (0xe, 0x46) => Self::ChangeBackground(ChangeBackgroundKind::NightAndSnow),
            (0xe, 0x47) => Self::ChangeBackground(ChangeBackgroundKind::NightAndCastle),
            (0xe, 0x48..=0x7f) => Self::Invalid,

            // Y offset 0xf
            (0xf, 0x00) => Self::LiftRope,
            (0xf, 0x01..=0x0f) => Self::Invalid,
            (0xf, 0x10..=0x1f) => Self::BalanceLiftVerticalRope(low_nibble + 1),
            (0xf, 0x20) => Self::BigCastle,
            (0xf, 0x21..=0x2f) => Self::Invalid,
            (0xf, 0x30..=0x38) => Self::Staircase(low_nibble + 1),
            (0xf, 0x39..=0x3f) => Self::Invalid,
            (0xf, 0x40..=0x42) => Self::Invalid,
            (0xf, 0x43..=0x4a) => Self::TallReverseLPipe(low_nibble),
            (0xf, 0x4b..=0x4f) => Self::Invalid,
            (0xf, 0x50..=0x5f) => Self::Invalid,
            (0xf, 0x60) => Self::Nothing,
            (0xf, 0x61..=0x6f) => Self::Invalid,
            (0xf, 0x70..=0x7f) => Self::Invalid,

            _ => Self::Invalid,
        }
    }
}

} // verus!
