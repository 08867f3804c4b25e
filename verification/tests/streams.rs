use smb1_tools::Error;
use smb1_tools::LevelEnemy;
use smb1_tools::LevelEnemyData;
use smb1_tools::LevelEnemyKind;
use smb1_tools::LevelObject;
use smb1_tools::LevelObjectData;
use smb1_tools::LevelObjectKind;
use smb1_tools::PipePointer;
use smb1_tools::SceneryKind;
use smb1_tools::Stream;

#[test]
fn object_record_fields() {
    let object = LevelObject::from_bytes(&[0xA7, 0x92]);
    assert_eq!(
        object,
        LevelObject {
            kind: LevelObjectKind::IslandOrCannon(3),
            x_coordinate: 0xA,
            y_coordinate: 0x7,
            new_page_flag: true,
        }
    );
}

#[test]
fn object_record_without_page_flag() {
    let object = LevelObject::from_bytes(&[0x3C, 0x25]);
    assert_eq!(
        object,
        LevelObject {
            kind: LevelObjectKind::BridgeY7(6),
            x_coordinate: 0x3,
            y_coordinate: 0xC,
            new_page_flag: false,
        }
    );
}

#[test]
fn object_record_page_flag_is_not_part_of_the_code() {
    let plain = LevelObject::from_bytes(&[0x0E, 0x2B]);
    let flagged = LevelObject::from_bytes(&[0x0E, 0xAB]);
    assert_eq!(plain.kind, LevelObjectKind::LayoutFloor5Mddle0Ceiling4(SceneryKind::Mountains));
    assert_eq!(flagged.kind, plain.kind);
    assert!(!plain.new_page_flag);
    assert!(flagged.new_page_flag);
}

#[test]
fn object_stream_in_order() {
    let bytes = [0x00, 0x00, 0x15, 0x81, 0xFC, 0x7F, 0x2D, 0x41, 0xFD];
    let data = LevelObjectData::from_bytes(&bytes).unwrap();
    assert_eq!(
        data.objects,
        vec![
            LevelObject {
                kind: LevelObjectKind::QuestionBlockPowerup,
                x_coordinate: 0,
                y_coordinate: 0,
                new_page_flag: false,
            },
            LevelObject {
                kind: LevelObjectKind::QuestionBlockCoin,
                x_coordinate: 1,
                y_coordinate: 5,
                new_page_flag: true,
            },
            LevelObject {
                kind: LevelObjectKind::HorizontalQuestionBlockY7(16),
                x_coordinate: 0xF,
                y_coordinate: 0xC,
                new_page_flag: false,
            },
            LevelObject {
                kind: LevelObjectKind::FlagPole,
                x_coordinate: 2,
                y_coordinate: 0xD,
                new_page_flag: false,
            },
        ]
    );
}

#[test]
fn object_stream_empty() {
    let data = LevelObjectData::from_bytes(&[0xFD]).unwrap();
    assert_eq!(data.objects.len(), 0);
}

#[test]
fn object_stream_stops_at_the_first_terminator() {
    let bytes = [0x11, 0x01, 0xFD, 0x22, 0x02, 0xFD];
    let data = LevelObjectData::from_bytes(&bytes).unwrap();
    assert_eq!(data.objects.len(), 1);
    assert_eq!(data.objects[0].x_coordinate, 1);
}

#[test]
fn object_stream_terminator_value_inside_a_record() {
    // the second byte of a record may be 0xFD: only a first byte ends the stream
    let bytes = [0x11, 0xFD, 0x22, 0x02, 0xFD];
    let data = LevelObjectData::from_bytes(&bytes).unwrap();
    assert_eq!(data.objects.len(), 2);
    assert!(data.objects[0].new_page_flag);
    assert_eq!(data.objects[0].kind, LevelObjectKind::PipeEntry(7));
}

#[test]
fn object_stream_never_holds_the_terminator() {
    let bytes = [0xFC, 0x00, 0xED, 0x00, 0xFE, 0x00, 0xDF, 0x00, 0xFD, 0xFD, 0x00];
    let data = LevelObjectData::from_bytes(&bytes).unwrap();
    assert_eq!(data.objects.len(), 4);
    for object in &data.objects {
        assert_ne!(16 * object.x_coordinate + object.y_coordinate, 0xFD);
    }
}

#[test]
fn object_stream_without_terminator() {
    let bytes = [0x11, 0x01, 0x22, 0x02];
    assert_eq!(
        LevelObjectData::from_bytes(&bytes),
        Err(Error::MalformedStream(Stream::Objects))
    );
}

#[test]
fn object_stream_no_bytes() {
    assert_eq!(LevelObjectData::from_bytes(&[]), Err(Error::MalformedStream(Stream::Objects)));
}

#[test]
fn object_stream_record_cut_short() {
    let bytes = [0x11, 0x01, 0x22];
    assert_eq!(
        LevelObjectData::from_bytes(&bytes),
        Err(Error::MalformedStream(Stream::Objects))
    );
}

#[test]
fn object_stream_terminator_only_at_odd_offset() {
    let bytes = [0x11, 0xFD, 0x22, 0xFD];
    assert_eq!(
        LevelObjectData::from_bytes(&bytes),
        Err(Error::MalformedStream(Stream::Objects))
    );
}

#[test]
fn enemy_record_fields() {
    let enemy = LevelEnemy::from_bytes(&[0x4B, 0x86]);
    assert_eq!(
        enemy,
        LevelEnemy {
            kind: LevelEnemyKind::CastleAxe,
            x_coordinate: 0x4,
            y_coordinate: 0xB,
            new_page_flag: true,
        }
    );
}

#[test]
fn pipe_pointer_fields() {
    let pointer = PipePointer::from_bytes(&[0x7E, 0x25, 0x99]);
    assert_eq!(pointer, PipePointer { x_coordinate: 0x7, y_coordinate: 0xE, new_page_flag: false });
    let flagged = PipePointer::from_bytes(&[0x0E, 0x80, 0x00]);
    assert_eq!(flagged, PipePointer { x_coordinate: 0x0, y_coordinate: 0xE, new_page_flag: true });
}

#[test]
fn enemy_stream_in_order() {
    let bytes = [0x1B, 0x06, 0x2E, 0x80, 0x42, 0x3A, 0x86, 0x4E, 0x00, 0x00, 0xFF];
    let data = LevelEnemyData::from_bytes(&bytes).unwrap();
    assert_eq!(
        data.enemies,
        vec![
            LevelEnemy {
                kind: LevelEnemyKind::CastleAxe,
                x_coordinate: 1,
                y_coordinate: 0xB,
                new_page_flag: false,
            },
            LevelEnemy {
                kind: LevelEnemyKind::CastleAxe,
                x_coordinate: 3,
                y_coordinate: 0xA,
                new_page_flag: true,
            },
        ]
    );
    assert_eq!(
        data.pipe_pointers,
        vec![
            PipePointer { x_coordinate: 2, y_coordinate: 0xE, new_page_flag: true },
            PipePointer { x_coordinate: 4, y_coordinate: 0xE, new_page_flag: false },
        ]
    );
}

#[test]
fn enemy_stream_empty() {
    let data = LevelEnemyData::from_bytes(&[0xFF]).unwrap();
    assert_eq!(data.enemies.len(), 0);
    assert_eq!(data.pipe_pointers.len(), 0);
}

#[test]
fn pipe_pointer_takes_three_bytes() {
    // were the pipe pointer two bytes long, 0xFF would be read as its successor
    let bytes = [0x5E, 0x01, 0xFF, 0x33, 0x02, 0xFF];
    let data = LevelEnemyData::from_bytes(&bytes).unwrap();
    assert_eq!(data.pipe_pointers.len(), 1);
    assert_eq!(data.enemies.len(), 1);
    assert_eq!(data.enemies[0].x_coordinate, 3);
}

#[test]
fn pipe_pointer_is_no_enemy() {
    let bytes = [0x0E, 0x00, 0x00, 0x1E, 0x00, 0x00, 0xFF];
    let data = LevelEnemyData::from_bytes(&bytes).unwrap();
    assert_eq!(data.enemies.len(), 0);
    assert_eq!(data.pipe_pointers.len(), 2);
}

#[test]
fn enemy_stream_keeps_the_records_apart() {
    let bytes = [0xEF, 0x00, 0xFE, 0x00, 0x00, 0xE0, 0xFF, 0x0E, 0xFF, 0xFF, 0xFF];
    let data = LevelEnemyData::from_bytes(&bytes).unwrap();
    assert_eq!(data.enemies.len(), 2);
    assert_eq!(data.pipe_pointers.len(), 2);
    for enemy in &data.enemies {
        assert_ne!(enemy.y_coordinate, 0xE);
        assert_ne!(16 * enemy.x_coordinate + enemy.y_coordinate, 0xFF);
    }
    for pointer in &data.pipe_pointers {
        assert_eq!(pointer.y_coordinate, 0xE);
    }
}

#[test]
fn enemy_stream_records_fill_the_bytes_before_the_terminator() {
    let bytes = [0x10, 0x00, 0x2E, 0x00, 0x00, 0x30, 0x00, 0x4E, 0x00, 0x00, 0x5E, 0x00, 0x00, 0xFF];
    let data = LevelEnemyData::from_bytes(&bytes).unwrap();
    let end = 2 * data.enemies.len() + 3 * data.pipe_pointers.len();
    assert_eq!(end, 13);
    assert_eq!(bytes[end], 0xFF);
}

#[test]
fn enemy_stream_without_terminator() {
    let bytes = [0x10, 0x00, 0x2E, 0x00, 0x00];
    assert_eq!(
        LevelEnemyData::from_bytes(&bytes),
        Err(Error::MalformedStream(Stream::Enemies))
    );
}

#[test]
fn enemy_stream_no_bytes() {
    assert_eq!(LevelEnemyData::from_bytes(&[]), Err(Error::MalformedStream(Stream::Enemies)));
}

#[test]
fn enemy_stream_enemy_cut_short() {
    let bytes = [0x10, 0x00, 0x20];
    assert_eq!(
        LevelEnemyData::from_bytes(&bytes),
        Err(Error::MalformedStream(Stream::Enemies))
    );
}

#[test]
fn enemy_stream_pipe_pointer_cut_short() {
    let bytes = [0x10, 0x00, 0x2E, 0x00];
    assert_eq!(
        LevelEnemyData::from_bytes(&bytes),
        Err(Error::MalformedStream(Stream::Enemies))
    );
}

#[test]
fn enemy_stream_terminator_hidden_in_a_pipe_pointer() {
    let bytes = [0x2E, 0xFF, 0xFF];
    assert_eq!(
        LevelEnemyData::from_bytes(&bytes),
        Err(Error::MalformedStream(Stream::Enemies))
    );
}

#[test]
fn decoding_twice_gives_the_same_records() {
    let objects = [0x11, 0x01, 0x2C, 0x45, 0xFD];
    assert_eq!(LevelObjectData::from_bytes(&objects), LevelObjectData::from_bytes(&objects));
    let enemies = [0x11, 0x01, 0x2E, 0x45, 0x00, 0xFF];
    assert_eq!(LevelEnemyData::from_bytes(&enemies), LevelEnemyData::from_bytes(&enemies));
}
