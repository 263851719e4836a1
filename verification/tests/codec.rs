use snake_sync::codec::{
    add_position, concat_i16_i16, is_game_over, read_directions, read_game_over, read_position,
    write_directions,
};
use snake_sync::grid::{Direction, GridPosition};
use snake_sync::ProtocolError;

fn build_frame(
    over: bool,
    dir: Direction,
    last: Direction,
    next: Option<Direction>,
    food: GridPosition,
) -> [u8; 8] {
    let mut buffer: [u8; 8] = [0; 8];
    let _ = add_position(&mut buffer, &food.to_bytes());
    let _ = is_game_over(&mut buffer, over);
    write_directions(&mut buffer, dir, last, next)
}

#[test]
fn frame_round_trip_all_fields() {
    let food = GridPosition::new(10, 5);
    let frame = build_frame(true, Direction::Left, Direction::Up, Some(Direction::Down), food);

    assert_eq!(read_game_over(&frame), true);
    let (dir, last, next) = read_directions(&frame).unwrap();
    assert_eq!(dir, Direction::Left);
    assert_eq!(last, Direction::Up);
    assert_eq!(next, Some(Direction::Down));
    let pos = read_position(&frame);
    assert_eq!(GridPosition::from_bytes(&pos), food);
}

#[test]
fn frame_round_trip_no_queued_direction() {
    let food = GridPosition::new(0, 19);
    let frame = build_frame(false, Direction::Right, Direction::Right, None, food);

    assert_eq!(frame[3], 4, "empty queue slot is the sentinel byte 4");
    assert_eq!(read_game_over(&frame), false);
    let (dir, last, next) = read_directions(&frame).unwrap();
    assert_eq!(dir, Direction::Right);
    assert_eq!(last, Direction::Right);
    assert_eq!(next, None);
    assert_eq!(GridPosition::from_bytes(&read_position(&frame)), food);
}

#[test]
fn negative_coordinates_survive_the_frame() {
    let food = GridPosition::new(-3, -1);
    let frame = build_frame(false, Direction::Up, Direction::Up, None, food);
    assert_eq!(GridPosition::from_bytes(&read_position(&frame)), food);
}

#[test]
fn queued_slot_is_permissive_many_to_one() {
    // Several distinct out-of-range bytes in the queued slot all decode to
    // "nothing queued"; decoding is not invertible there.
    for invalid in [4u8, 9, 255] {
        let frame: [u8; 8] = [0, 0, 1, invalid, 0, 0, 0, 0];
        let (_, _, next) = read_directions(&frame).unwrap();
        assert_eq!(next, None, "byte {} must mean no queued direction", invalid);
    }
}

#[test]
fn strict_slots_reject_invalid_bytes() {
    let bad_dir: [u8; 8] = [0, 4, 1, 0, 0, 0, 0, 0];
    assert_eq!(read_directions(&bad_dir), Err(ProtocolError::InvalidDirectionByte));

    let bad_last: [u8; 8] = [0, 1, 200, 0, 0, 0, 0, 0];
    assert_eq!(read_directions(&bad_last), Err(ProtocolError::InvalidDirectionByte));
}

#[test]
fn gameover_byte_reads_one_only() {
    let mut frame: [u8; 8] = [0; 8];
    assert!(!read_game_over(&frame));
    frame[0] = 1;
    assert!(read_game_over(&frame));
    frame[0] = 2;
    assert!(!read_game_over(&frame), "only the exact byte 1 means game over");
}

#[test]
fn concat_keeps_byte_order() {
    let b = concat_i16_i16(&[1, 2], &[3, 4]);
    assert_eq!(b, [1, 2, 3, 4]);
}

#[test]
fn position_bytes_are_big_endian() {
    let p = GridPosition::new(258, 5);
    assert_eq!(p.to_bytes(), [1, 2, 0, 5]);
}

#[test]
fn direction_bytes_round_trip() {
    let dirs = [Direction::Up, Direction::Down, Direction::Left, Direction::Right];
    for (i, d) in dirs.iter().enumerate() {
        let b = d.to_bytes();
        assert_eq!(b[0] as usize, i);
        assert_eq!(Direction::from_bytes(&b), Ok(*d));
    }
    assert_eq!(Direction::from_bytes(&[4]), Err(ProtocolError::InvalidDirectionByte));
}
