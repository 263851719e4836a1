//! The fixed eight-byte wire frame. Byte 0 carries the game-over flag,
//! bytes 1 through 3 a snake's direction triple (current, last applied,
//! queued), bytes 4 through 7 the food position as two big-endian signed
//! 16-bit coordinates. The queued-direction slot treats any byte outside
//! 0 through 3 as "nothing queued"; the two strict slots reject such a
//! byte as a protocol error.

use vstd::prelude::*;

use crate::grid::{i16_of_bytes, lemma_i16_bytes_round_trip, Direction, GridPosition};
use crate::ProtocolError;

verus! {

/// A frame with bytes 4 through 7 replaced by the four position bytes.
pub open spec fn with_position(b: Seq<u8>, p: Seq<u8>) -> Seq<u8> {
    b.update(4, p[0]).update(5, p[1]).update(6, p[2]).update(7, p[3])
}

/// A frame with byte 0 replaced by the game-over flag.
pub open spec fn with_gameover(b: Seq<u8>, over: bool) -> Seq<u8> {
    b.update(0, if over { 1u8 } else { 0u8 })
}

/// The wire byte of the queued-direction slot: a direction's discriminant,
/// or the sentinel 4 for an empty slot.
pub open spec fn next_dir_byte(n: Option<Direction>) -> u8 {
    match n {
        Some(d) => d.byte_spec(),
        None => 4,
    }
}

/// A frame with bytes 1 through 3 replaced by a direction triple.
pub open spec fn with_directions(b: Seq<u8>, d: Direction, l: Direction, n: Option<Direction>) -> Seq<u8> {
    b.update(1, d.byte_spec()).update(2, l.byte_spec()).update(3, next_dir_byte(n))
}

/// The all-zero frame that every encoding starts from.
pub open spec fn zero_frame() -> Seq<u8> {
    Seq::new(8, |i: int| 0u8)
}

/// The full frame a peer sends: flag, direction triple and food position
/// written over a zeroed buffer.
pub open spec fn encode_frame(
    over: bool,
    d: Direction,
    l: Direction,
    n: Option<Direction>,
    food: GridPosition,
) -> Seq<u8> {
    with_directions(with_gameover(with_position(zero_frame(), food.bytes_spec()), over), d, l, n)
}

/// The game-over flag a frame carries: exactly the byte 1 means over.
pub open spec fn frame_gameover(b: Seq<u8>) -> bool {
    b[0] == 1
}

/// Both strict direction slots of the frame hold valid discriminants.
pub open spec fn frame_dirs_valid(b: Seq<u8>) -> bool {
    &&& Direction::of_byte_spec(b[1]) is Some
    &&& Direction::of_byte_spec(b[2]) is Some
}

/// The food position a frame carries.
pub open spec fn frame_position(b: Seq<u8>) -> GridPosition {
    GridPosition { x: i16_of_bytes(b[4], b[5]), y: i16_of_bytes(b[6], b[7]) }
}

/// The first two bytes of each argument, side by side: an encoded
/// coordinate pair.
pub fn concat_i16_i16(arr1: &[u8], arr2: &[u8]) -> (r: [u8; 4])
    requires
        arr1@.len() >= 2,
        arr2@.len() >= 2,
    ensures
        r@ == seq![arr1[0], arr1[1], arr2[0], arr2[1]],
{
    let b: [u8; 4] = [arr1[0], arr1[1], arr2[0], arr2[1]];
    assert(b@ =~= seq![arr1[0], arr1[1], arr2[0], arr2[1]]);
    b
}

/// Writes the four position bytes into the frame and hands the frame back.
pub fn add_position(buffer: &mut [u8; 8], position: &[u8; 4]) -> (r: [u8; 8])
    ensures
        final(buffer)@ == with_position(old(buffer)@, position@),
        r@ == final(buffer)@,
{
    buffer[4] = position[0];
    buffer[5] = position[1];
    buffer[6] = position[2];
    buffer[7] = position[3];
    assert(buffer@ =~= with_position(old(buffer)@, position@));
    *buffer
}

/// The four position bytes of the frame.
pub fn read_position(buffer: &[u8; 8]) -> (r: [u8; 4])
    ensures
        r@ == buffer@.subrange(4, 8),
{
    let b: [u8; 4] = [buffer[4], buffer[5], buffer[6], buffer[7]];
    assert(b@ =~= buffer@.subrange(4, 8));
    b
}

/// Writes the game-over flag into the frame and hands the frame back.
pub fn is_game_over(buffer: &mut [u8; 8], over: bool) -> (r: [u8; 8])
    ensures
        final(buffer)@ == with_gameover(old(buffer)@, over),
        r@ == final(buffer)@,
{
    if over {
        buffer[0] = 1;
    } else {
        buffer[0] = 0;
    }
    assert(buffer@ =~= with_gameover(old(buffer)@, over));
    *buffer
}

/// The game-over flag of the frame.
pub fn read_game_over(buffer: &[u8; 8]) -> (r: bool)
    ensures
        r == frame_gameover(buffer@),
{
    buffer[0] == 1
}

/// Writes a snake's direction triple into the frame and hands the frame
/// back. An empty queued slot becomes the sentinel byte 4.
pub fn write_directions(
    buffer: &mut [u8; 8],
    dir: Direction,
    last_update_dir: Direction,
    next_dir: Option<Direction>,
) -> (r: [u8; 8])
    ensures
        final(buffer)@ == with_directions(old(buffer)@, dir, last_update_dir, next_dir),
        r@ == final(buffer)@,
{
    let dir_byte = dir.to_bytes();
    let last_update_dir_byte = last_update_dir.to_bytes();
    let next_dir_byte: [u8; 1] = match next_dir {
        Some(d) => d.to_bytes(),
        None => [4],
    };

    buffer[1] = dir_byte[0];
    buffer[2] = last_update_dir_byte[0];
    buffer[3] = next_dir_byte[0];
    assert(buffer@ =~= with_directions(old(buffer)@, dir, last_update_dir, next_dir));
    *buffer
}

/// Reads the direction triple of the frame. The two strict slots must hold
/// valid discriminants; the queued slot maps any out-of-range byte,
/// the sentinel 4 included, to an empty slot.
pub fn read_directions(buffer: &[u8; 8]) -> (r: Result<
    (Direction, Direction, Option<Direction>),
    ProtocolError,
>)
    ensures
        r is Ok <==> frame_dirs_valid(buffer@),
        r matches Ok(t) ==> {
            &&& Direction::of_byte_spec(buffer[1]) == Some(t.0)
            &&& Direction::of_byte_spec(buffer[2]) == Some(t.1)
            &&& Direction::of_byte_spec(buffer[3]) == t.2
        },
        r is Err ==> r == Err::<(Direction, Direction, Option<Direction>), ProtocolError>(
            ProtocolError::InvalidDirectionByte,
        ),
{
    let dir = match Direction::from_bytes(&[buffer[1]]) {
        Ok(d) => d,
        Err(e) => {
            return Err(e);
        },
    };
    let last_update_dir = match Direction::from_bytes(&[buffer[2]]) {
        Ok(d) => d,
        Err(e) => {
            return Err(e);
        },
    };
    let next_dir = match buffer[3] {
        0 => Some(Direction::Up),
        1 => Some(Direction::Down),
        2 => Some(Direction::Left),
        3 => Some(Direction::Right),
        _ => None,
    };

    Ok((dir, last_update_dir, next_dir))
}

/// Round trip of the frame codec: decoding an encoded frame yields the
/// flag, the direction triple and the food position that went in. The
/// queued slot alone is many-to-one: every out-of-range byte, not only
/// the sentinel written by the encoder, decodes to an empty slot.
pub proof fn lemma_frame_round_trip(
    over: bool,
    d: Direction,
    l: Direction,
    n: Option<Direction>,
    food: GridPosition,
)
    ensures
        encode_frame(over, d, l, n, food).len() == 8,
        frame_gameover(encode_frame(over, d, l, n, food)) == over,
        frame_dirs_valid(encode_frame(over, d, l, n, food)),
        Direction::of_byte_spec(encode_frame(over, d, l, n, food)[1]) == Some(d),
        Direction::of_byte_spec(encode_frame(over, d, l, n, food)[2]) == Some(l),
        Direction::of_byte_spec(encode_frame(over, d, l, n, food)[3]) == n,
        frame_position(encode_frame(over, d, l, n, food)) == food,
        forall|b: u8| b > 3 ==> Direction::of_byte_spec(b) is None,
{
    lemma_i16_bytes_round_trip(food.x);
    lemma_i16_bytes_round_trip(food.y);
}

} // verus!
