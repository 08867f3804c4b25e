//! Enemy placements of a level: the stream of records that ends with
//! `0xFF`. A record whose first byte has the low nibble `0xE` is a pipe
//! pointer of three bytes; every other record is an enemy of two bytes.

use vstd::prelude::*;
use vstd::slice::slice_subrange;
use crate::error::Error;
use crate::error::Stream;
use crate::util::lemma_byte_fields;

verus! {

/// The byte that ends the enemy stream.
pub const ENEMY_TERMINATOR: u8 = 0xFF;

/// The low nibble that marks a pipe pointer.
pub const PIPE_POINTER_MARK: u8 = 0x0E;

/// The enemies and the pipe pointers of a level, each in the order of the
/// stream.
#[derive(Debug, Clone, PartialEq, Eq)]
pub struct LevelEnemyData {
    pub enemies: Vec<LevelEnemy>,
    pub pipe_pointers: Vec<PipePointer>,
}

/// What a `LevelEnemyData` holds.
pub struct LevelEnemyDataView {
    pub enemies: Seq<LevelEnemy>,
    pub pipe_pointers: Seq<PipePointer>,
}

impl View for LevelEnemyData {
    type V = LevelEnemyDataView;

    open spec fn view(&self) -> LevelEnemyDataView {
        LevelEnemyDataView { enemies: self.enemies@, pipe_pointers: self.pipe_pointers@ }
    }
}

/// What an enemy record places.
#[derive(Debug, Clone, Copy, PartialEq, Eq, Structural)]
pub enum LevelEnemyKind {
    QuestionBlockPowerup,
    QuestionBlockCoin,
    HiddenBlockCoin,
    HiddenBlockExtraLife,
    BrickPowerup,
    BrickVine,
    BrickStar,
    BrickMultiCoinBlock,
    BrickExtraLife,
    SidewaysPipe,
    UsedBlock,
    Spring,
    ReverseLPipe,
    FlagPole,
    CastleBridge,
    Nothing,
    IslandOrCannon,
    HorizontalBrick,
    HorizontalBlock,
    HorizontalCoins,
    VerticalBrick,
    VerticalBlock,
    PipeNoEntry,
    PipeEntry,
    Hole,
    BalanceHorizontalRope,
    BridgeV7,
    BridgeV8,
    BridgeV10,
    FilledHole,
    HorizontalQuestionBlockV3,
    HorizontalQuestionBlockV7,
    PageSkip,
    CastleAxe,
    AxeRope,
    ScrollStop,
    RedCheepCheep,
    ContinuousBulletBillsOrCheepCheeps,
    StopContinuation,
    LoopCommand,
    DoNotUse,
}

/// One enemy placement.
#[derive(Debug, Clone, Copy, PartialEq, Eq, Structural)]
pub struct LevelEnemy {
    pub kind: LevelEnemyKind,
    pub x_coordinate: u8,
    pub y_coordinate: u8,
    pub new_page_flag: bool,
}

/// One pipe pointer: where a pipe of the level leads.
#[derive(Debug, Clone, Copy, PartialEq, Eq, Structural)]
pub struct PipePointer {
    pub x_coordinate: u8,
    pub y_coordinate: u8,
    pub new_page_flag: bool,
}

impl LevelEnemyData {
    /// Whether the record that begins with `first` is a pipe pointer.
    pub open spec fn spec_is_pipe_pointer(first: u8) -> bool {
        first % 16 == PIPE_POINTER_MARK
    }

    /// The number of bytes of the record that begins with `first`.
    pub open spec fn spec_record_len(first: u8) -> int {
        if Self::spec_is_pipe_pointer(first) {
            3
        } else {
            2
        }
    }

    /// Whether a scan that starts at `pos` and steps over whole records
    /// finds the terminator where a record would begin.
    pub open spec fn spec_terminated(bytes: Seq<u8>, pos: int) -> bool
        decreases bytes.len() - pos,
    {
        if pos < 0 || pos >= bytes.len() {
            false
        } else if bytes[pos] == ENEMY_TERMINATOR {
            true
        } else if pos + Self::spec_record_len(bytes[pos]) > bytes.len() {
            false
        } else {
            Self::spec_terminated(bytes, pos + Self::spec_record_len(bytes[pos]))
        }
    }

    /// The enemies from `pos` up to the terminator, in stream order.
    pub open spec fn spec_enemies(bytes: Seq<u8>, pos: int) -> Seq<LevelEnemy>
        decreases bytes.len() - pos,
    {
        if pos < 0 || pos >= bytes.len() || bytes[pos] == ENEMY_TERMINATOR || pos
            + Self::spec_record_len(bytes[pos]) > bytes.len() {
            Seq::empty()
        } else if Self::spec_is_pipe_pointer(bytes[pos]) {
            Self::spec_enemies(bytes, pos + 3)
        } else {
            seq![LevelEnemy::spec_from_bytes(bytes[pos], bytes[pos + 1])] + Self::spec_enemies(
                bytes,
                pos + 2,
            )
        }
    }

    /// The pipe pointers from `pos` up to the terminator, in stream order.
    pub open spec fn spec_pipe_pointers(bytes: Seq<u8>, pos: int) -> Seq<PipePointer>
        decreases bytes.len() - pos,
    {
        if pos < 0 || pos >= bytes.len() || bytes[pos] == ENEMY_TERMINATOR || pos
            + Self::spec_record_len(bytes[pos]) > bytes.len() {
            Seq::empty()
        } else if Self::spec_is_pipe_pointer(bytes[pos]) {
            seq![PipePointer::spec_from_bytes(bytes[pos], bytes[pos + 1])]
                + Self::spec_pipe_pointers(bytes, pos + 3)
        } else {
            Self::spec_pipe_pointers(bytes, pos + 2)
        }
    }

    /// What decoding `bytes` gives: the enemies and the pipe pointers
    /// before the terminator, or the error of a stream that has none.
    pub open spec fn spec_from_bytes(bytes: Seq<u8>) -> Result<LevelEnemyDataView, Error> {
        if Self::spec_terminated(bytes, 0) {
            Ok(
                LevelEnemyDataView {
                    enemies: Self::spec_enemies(bytes, 0),
                    pipe_pointers: Self::spec_pipe_pointers(bytes, 0),
                },
            )
        } else {
            Err(Error::MalformedStream(Stream::Enemies))
        }
    }

    /// A record whose first byte has the low nibble `0xE` takes three
    /// bytes, adds nothing to the enemies, and adds its pipe pointer in
    /// front of the pipe pointers that follow.
    pub proof fn lemma_pipe_pointer_record(bytes: Seq<u8>, pos: int)
        requires
            0 <= pos,
            pos + 3 <= bytes.len(),
            Self::spec_is_pipe_pointer(bytes[pos]),
        ensures
            Self::spec_terminated(bytes, pos) == Self::spec_terminated(bytes, pos + 3),
            Self::spec_enemies(bytes, pos) == Self::spec_enemies(bytes, pos + 3),
            Self::spec_pipe_pointers(bytes, pos) == seq![
                PipePointer::spec_from_bytes(bytes[pos], bytes[pos + 1]),
            ] + Self::spec_pipe_pointers(bytes, pos + 3),
    {
    }

    /// Any other record before the terminator takes two bytes, adds its
    /// enemy in front of the enemies that follow, and adds nothing to the
    /// pipe pointers.
    pub proof fn lemma_enemy_record(bytes: Seq<u8>, pos: int)
        requires
            0 <= pos,
            pos + 2 <= bytes.len(),
            bytes[pos] != ENEMY_TERMINATOR,
            !Self::spec_is_pipe_pointer(bytes[pos]),
        ensures
            Self::spec_terminated(bytes, pos) == Self::spec_terminated(bytes, pos + 2),
            Self::spec_enemies(bytes, pos) == seq![
                LevelEnemy::spec_from_bytes(bytes[pos], bytes[pos + 1]),
            ] + Self::spec_enemies(bytes, pos + 2),
            Self::spec_pipe_pointers(bytes, pos) == Self::spec_pipe_pointers(bytes, pos + 2),
    {
    }

    /// The two sequences keep the records apart, and neither holds a record
    /// decoded from the terminator: the row of a pipe pointer is `0xE`, the
    /// row of an enemy is not, and the column and the row of an enemy never
    /// spell `0xFF`.
    pub proof fn lemma_records_kept_apart(bytes: Seq<u8>, pos: int)
        ensures
            forall|i: int|
                0 <= i < Self::spec_enemies(bytes, pos).len() ==> {
                    let enemy = #[trigger] Self::spec_enemies(bytes, pos)[i];
                    &&& enemy.y_coordinate != PIPE_POINTER_MARK
                    &&& 16 * enemy.x_coordinate + enemy.y_coordinate != ENEMY_TERMINATOR
                },
            forall|i: int|
                0 <= i < Self::spec_pipe_pointers(bytes, pos).len() ==> (
                #[trigger] Self::spec_pipe_pointers(bytes, pos)[i]).y_coordinate
                    == PIPE_POINTER_MARK,
        decreases bytes.len() - pos,
    {
        if !(pos < 0 || pos >= bytes.len() || bytes[pos] == ENEMY_TERMINATOR || pos
            + Self::spec_record_len(bytes[pos]) > bytes.len()) {
            let next = pos + Self::spec_record_len(bytes[pos]);
            Self::lemma_records_kept_apart(bytes, next);
            let enemies = Self::spec_enemies(bytes, next);
            let pipe_pointers = Self::spec_pipe_pointers(bytes, next);
            assert forall|i: int| 0 <= i < Self::spec_enemies(bytes, pos).len() implies {
                let enemy = #[trigger] Self::spec_enemies(bytes, pos)[i];
                &&& enemy.y_coordinate != PIPE_POINTER_MARK
                &&& 16 * enemy.x_coordinate + enemy.y_coordinate != ENEMY_TERMINATOR
            } by {
                if !Self::spec_is_pipe_pointer(bytes[pos]) && i > 0 {
                    assert(Self::spec_enemies(bytes, pos)[i] == enemies[i - 1]);
                }
            }
            assert forall|i: int| 0 <= i < Self::spec_pipe_pointers(bytes, pos).len() implies (
            #[trigger] Self::spec_pipe_pointers(bytes, pos)[i]).y_coordinate
                == PIPE_POINTER_MARK by {
                if Self::spec_is_pipe_pointer(bytes[pos]) && i > 0 {
                    assert(Self::spec_pipe_pointers(bytes, pos)[i] == pipe_pointers[i - 1]);
                }
            }
        }
    }

    /// In a terminated stream the records fill the bytes before the
    /// terminator: two bytes for each enemy, three for each pipe pointer.
    pub proof fn lemma_terminator_position(bytes: Seq<u8>, pos: int)
        requires
            Self::spec_terminated(bytes, pos),
        ensures
            ({
                let end = pos + 2 * Self::spec_enemies(bytes, pos).len() + 3
                    * Self::spec_pipe_pointers(bytes, pos).len();
                pos <= end < bytes.len() && bytes[end] == ENEMY_TERMINATOR
            }),
        decreases bytes.len() - pos,
    {
        if bytes[pos] != ENEMY_TERMINATOR {
            Self::lemma_terminator_position(bytes, pos + Self::spec_record_len(bytes[pos]));
        }
    }

    /// Decodes the enemy stream that starts at the first byte of `bytes`.
    /// Bytes behind the terminator are not looked at.
    pub fn from_bytes(bytes: &[u8]) -> (result: Result<Self, Error>)
        ensures
            match result {
                Ok(data) => Self::spec_from_bytes(bytes@) == Ok::<LevelEnemyDataView, Error>(
                    data@,
                ),
                Err(e) => Self::spec_from_bytes(bytes@) == Err::<LevelEnemyDataView, Error>(e),
            },
    {
        let mut enemies: Vec<LevelEnemy> = Vec::new();
        let mut pipe_pointers: Vec<PipePointer> = Vec::new();

        // process record by record
        let mut idx: usize = 0;
        loop
            invariant
                idx <= bytes@.len(),
                Self::spec_terminated(bytes@, 0) == Self::spec_terminated(bytes@, idx as int),
                Self::spec_enemies(bytes@, 0) == enemies@ + Self::spec_enemies(bytes@, idx as int),
                Self::spec_pipe_pointers(bytes@, 0) == pipe_pointers@ + Self::spec_pipe_pointers(
                    bytes@,
                    idx as int,
                ),
            ensures
                idx < bytes@.len(),
                bytes@[idx as int] == ENEMY_TERMINATOR,
            decreases bytes@.len() - idx,
        {
            if idx >= bytes.len() {
                return Err(Error::MalformedStream(Stream::Enemies));
            }
            let byte: u8 = bytes[idx];

            // 0xFF is the end enemy marker
            if byte == ENEMY_TERMINATOR {
                break ;
            }
            proof {
                lemma_byte_fields(byte);
            }
            if (byte & 0x0F) == PIPE_POINTER_MARK {
                // pipe pointer (3 bytes)
                if bytes.len() - idx < 3 {
                    return Err(Error::MalformedStream(Stream::Enemies));
                }
                let pointer = PipePointer::from_bytes(slice_subrange(bytes, idx, bytes.len()));
                proof {
                    let rest = Self::spec_pipe_pointers(bytes@, idx as int + 3);
                    assert((pipe_pointers@ + seq![pointer]) + rest == pipe_pointers@ + (
                    seq![pointer] + rest));
                }
                pipe_pointers.push(pointer);
                idx += 3;
            } else {
                // enemy (2 bytes)
                if bytes.len() - idx < 2 {
                    return Err(Error::MalformedStream(Stream::Enemies));
                }
                let enemy = LevelEnemy::from_bytes(slice_subrange(bytes, idx, bytes.len()));
                proof {
                    let rest = Self::spec_enemies(bytes@, idx as int + 2);
                    assert((enemies@ + seq![enemy]) + rest == enemies@ + (seq![enemy] + rest));
                }
                enemies.push(enemy);
                idx += 2;
            }
        }
        assert(enemies@ + Seq::<LevelEnemy>::empty() == enemies@);
        assert(pipe_pointers@ + Seq::<PipePointer>::empty() == pipe_pointers@);
        Ok(Self { enemies, pipe_pointers })
    }
}

impl LevelEnemy {
    /// The enemy that the record `first`, `second` places: the column in
    /// the high nibble of `first`, the row in its low nibble, the page flag
    /// in the top bit of `second`. The enemy codes of the format are not
    /// told apart: every enemy is given the kind `CastleAxe`.
    pub open spec fn spec_from_bytes(first: u8, second: u8) -> LevelEnemy {
        LevelEnemy {
            kind: LevelEnemyKind::CastleAxe,
            x_coordinate: first / 16,
            y_coordinate: first % 16,
            new_page_flag: second >= 128,
        }
    }

    /// Decodes the record in the first two bytes of `bytes`.
    pub fn from_bytes(bytes: &[u8]) -> (enemy: Self)
        requires
            bytes@.len() >= 2,
        ensures
            enemy == Self::spec_from_bytes(bytes@[0], bytes@[1]),
    {
        proof {
            lemma_byte_fields(bytes@[0]);
            lemma_byte_fields(bytes@[1]);
        }
        let x_coordinate: u8 = bytes[0] >> 4;
        let y_coordinate: u8 = bytes[0] & 0b00001111;
        let kind = LevelEnemyKind::CastleAxe;
        let new_page_flag = bytes[1] & 0b10000000 != 0;

        Self { kind, x_coordinate, y_coordinate, new_page_flag }
    }
}

impl PipePointer {
    /// The pipe pointer of a record that begins with `first`, `second`: the
    /// column in the high nibble of `first`, the row in its low nibble, the
    /// page flag in the top bit of `second`. The third byte of the record
    /// is not decoded.
    pub open spec fn spec_from_bytes(first: u8, second: u8) -> PipePointer {
        PipePointer {
            x_coordinate: first / 16,
            y_coordinate: first % 16,
            new_page_flag: second >= 128,
        }
    }

    /// Decodes the record in the first three bytes of `bytes`.
    pub fn from_bytes(bytes: &[u8]) -> (pointer: Self)
        requires
            bytes@.len() >= 3,
        ensures
            pointer == Self::spec_from_bytes(bytes@[0], bytes@[1]),
    {
        proof {
            lemma_byte_fields(bytes@[0]);
            lemma_byte_fields(bytes@[1]);
        }
        let x_coordinate: u8 = bytes[0] >> 4;
        let y_coordinate: u8 = bytes[0] & 0b00001111;
        let new_page_flag = bytes[1] & 0b10000000 != 0;

        Self { x_coordinate, y_coordinate, new_page_flag }
    }
}

} // verus!
