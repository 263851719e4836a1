//! Toroidal grid coordinates, the four movement directions, and their
//! byte encodings for the wire frame.

use vstd::prelude::*;

use crate::rng::rand_position_component;
use crate::ProtocolError;
use oorandom::Rand32;

verus! {

/// Width of the shared game board, in cells.
pub const GRID_WIDTH: i16 = 30;

/// Height of the shared game board, in cells.
pub const GRID_HEIGHT: i16 = 20;

/// A cell of the game board. The board is a torus: movement past an edge
/// wraps to the opposite edge, so a position held by the simulation always
/// satisfies `in_grid`. Coordinates are signed because they travel the wire
/// as signed 16-bit values.
#[derive(Clone, Copy, PartialEq, Eq, Structural, Debug)]
pub struct GridPosition {
    pub x: i16,
    pub y: i16,
}

/// One of the four directions a snake can move. On the wire each direction
/// is a single byte, 0 through 3; the byte 4 is the sentinel for "no queued
/// direction" in the one slot that allows it.
#[derive(Clone, Copy, PartialEq, Eq, Structural, Debug)]
pub enum Direction {
    Up,
    Down,
    Left,
    Right,
}

/// The high byte of a coordinate's big-endian wire encoding.
pub open spec fn hi_byte(v: i16) -> u8 {
    ((v as u16) >> 8) as u8
}

/// The low byte of a coordinate's big-endian wire encoding.
pub open spec fn lo_byte(v: i16) -> u8 {
    (v as u16) as u8
}

/// The coordinate a big-endian byte pair decodes to.
pub open spec fn i16_of_bytes(hi: u8, lo: u8) -> i16 {
    (((hi as u16) << 8) | (lo as u16)) as i16
}

/// A coordinate survives the trip through its two wire bytes.
pub proof fn lemma_i16_bytes_round_trip(v: i16)
    ensures
        i16_of_bytes(hi_byte(v), lo_byte(v)) == v,
{
    assert((((((v as u16) >> 8) as u8) as u16) << 8) | (((v as u16) as u8) as u16) == v as u16)
        by (bit_vector);
    assert(((v as u16) as i16) == v) by (bit_vector);
}

impl GridPosition {
    /// The invariant of every position the simulation owns.
    pub open spec fn in_grid(self) -> bool {
        &&& 0 <= self.x < GRID_WIDTH
        &&& 0 <= self.y < GRID_HEIGHT
    }

    pub fn new(x: i16, y: i16) -> (r: Self)
        ensures
            r == (GridPosition { x, y }),
    {
        GridPosition { x, y }
    }

    /// The big-endian wire encoding of a position: x then y, two bytes each.
    pub open spec fn bytes_spec(self) -> Seq<u8> {
        seq![hi_byte(self.x), lo_byte(self.x), hi_byte(self.y), lo_byte(self.y)]
    }

    pub fn to_bytes(&self) -> (r: [u8; 4])
        ensures
            r@ == self.bytes_spec(),
    {
        let x_bytes = i16_to_be_bytes(self.x);
        let y_bytes = i16_to_be_bytes(self.y);

        crate::codec::concat_i16_i16(&x_bytes, &y_bytes)
    }

    pub fn from_bytes(bytes: &[u8; 4]) -> (r: GridPosition)
        ensures
            r.x == i16_of_bytes(bytes[0], bytes[1]),
            r.y == i16_of_bytes(bytes[2], bytes[3]),
    {
        let x = i16_from_be_bytes(bytes[0], bytes[1]);
        let y = i16_from_be_bytes(bytes[2], bytes[3]);

        Self::new(x, y)
    }

    /// A position drawn from `[0, max_x) x [0, max_y)`. Every cell of that
    /// rectangle can come out: nothing is excluded, occupied or not.
    pub fn random(rng: &mut Rand32, max_x: i16, max_y: i16) -> (r: Self)
        requires
            0 < max_x,
            0 < max_y,
        ensures
            0 <= r.x < max_x,
            0 <= r.y < max_y,
    {
        let x = rand_position_component(rng, max_x as u32);
        let y = rand_position_component(rng, max_y as u32);
        GridPosition::new(x as i16, y as i16)
    }

    /// One step from `pos` in direction `dir`, wrapped onto the torus: each
    /// coordinate is reduced by true mathematical modulo, so the result is
    /// in the grid whatever the sign of the raw step.
    pub open spec fn move_spec(pos: GridPosition, dir: Direction) -> GridPosition {
        match dir {
            Direction::Up => GridPosition { x: pos.x, y: (((pos.y - 1) % (GRID_HEIGHT as int)) as i16) },
            Direction::Down => GridPosition { x: pos.x, y: (((pos.y + 1) % (GRID_HEIGHT as int)) as i16) },
            Direction::Left => GridPosition { x: (((pos.x - 1) % (GRID_WIDTH as int)) as i16), y: pos.y },
            Direction::Right => GridPosition { x: (((pos.x + 1) % (GRID_WIDTH as int)) as i16), y: pos.y },
        }
    }

    pub fn new_from_move(pos: GridPosition, dir: Direction) -> (r: Self)
        requires
            pos.in_grid(),
        ensures
            r == Self::move_spec(pos, dir),
            r.in_grid(),
    {
        match dir {
            Direction::Up => GridPosition::new(pos.x, if pos.y == 0 { GRID_HEIGHT - 1 } else { pos.y - 1 }),
            Direction::Down => GridPosition::new(pos.x, if pos.y == GRID_HEIGHT - 1 { 0 } else { pos.y + 1 }),
            Direction::Left => GridPosition::new(if pos.x == 0 { GRID_WIDTH - 1 } else { pos.x - 1 }, pos.y),
            Direction::Right => GridPosition::new(if pos.x == GRID_WIDTH - 1 { 0 } else { pos.x + 1 }, pos.y),
        }
    }
}

/// A step on the torus always wraps exactly to the opposite edge: leaving
/// the board on the right re-enters on the left, and so on for all four
/// edges.
pub proof fn lemma_wraparound(x: i16, y: i16)
    requires
        0 <= x < GRID_WIDTH,
        0 <= y < GRID_HEIGHT,
    ensures
        GridPosition::move_spec(GridPosition { x: (GRID_WIDTH - 1) as i16, y }, Direction::Right)
            == (GridPosition { x: 0, y }),
        GridPosition::move_spec(GridPosition { x: 0, y }, Direction::Left)
            == (GridPosition { x: (GRID_WIDTH - 1) as i16, y }),
        GridPosition::move_spec(GridPosition { x, y: (GRID_HEIGHT - 1) as i16 }, Direction::Down)
            == (GridPosition { x, y: 0 }),
        GridPosition::move_spec(GridPosition { x, y: 0 }, Direction::Up)
            == (GridPosition { x, y: (GRID_HEIGHT - 1) as i16 }),
{
}

impl Direction {
    /// The opposite direction; a snake may never turn straight into it
    /// within one tick.
    pub open spec fn inverse_spec(self) -> Direction {
        match self {
            Direction::Up => Direction::Down,
            Direction::Down => Direction::Up,
            Direction::Left => Direction::Right,
            Direction::Right => Direction::Left,
        }
    }

    pub fn inverse(&self) -> (r: Self)
        ensures
            r == self.inverse_spec(),
    {
        match *self {
            Direction::Up => Direction::Down,
            Direction::Down => Direction::Up,
            Direction::Left => Direction::Right,
            Direction::Right => Direction::Left,
        }
    }

    /// The wire discriminant of a direction.
    pub open spec fn byte_spec(self) -> u8 {
        match self {
            Direction::Up => 0,
            Direction::Down => 1,
            Direction::Left => 2,
            Direction::Right => 3,
        }
    }

    /// The direction a wire byte decodes to, if any: only 0 through 3 are
    /// valid discriminants.
    pub open spec fn of_byte_spec(b: u8) -> Option<Direction> {
        if b == 0 {
            Some(Direction::Up)
        } else if b == 1 {
            Some(Direction::Down)
        } else if b == 2 {
            Some(Direction::Left)
        } else if b == 3 {
            Some(Direction::Right)
        } else {
            None
        }
    }

    pub fn to_bytes(&self) -> (r: [u8; 1])
        ensures
            r@ == seq![self.byte_spec()],
    {
        match *self {
            Direction::Up => [0],
            Direction::Down => [1],
            Direction::Left => [2],
            Direction::Right => [3],
        }
    }

    /// Strict decode of a direction byte. Unlike the queued-direction slot
    /// of the frame, an out-of-range byte here is a protocol error, not a
    /// sentinel.
    pub fn from_bytes(bytes: &[u8; 1]) -> (r: Result<Direction, ProtocolError>)
        ensures
            r matches Ok(d) ==> Self::of_byte_spec(bytes[0]) == Some(d),
            r is Err <==> Self::of_byte_spec(bytes[0]) is None,
            r is Err ==> r == Err::<Direction, ProtocolError>(ProtocolError::InvalidDirectionByte),
    {
        match bytes[0] {
            0 => Ok(Direction::Up),
            1 => Ok(Direction::Down),
            2 => Ok(Direction::Left),
            3 => Ok(Direction::Right),
            _ => Err(ProtocolError::InvalidDirectionByte),
        }
    }
}

/// A direction byte decodes back to the direction it encodes.
pub proof fn lemma_direction_byte_round_trip(d: Direction)
    ensures
        Direction::of_byte_spec(d.byte_spec()) == Some(d),
{
}

/// The big-endian byte pair of a coordinate.
fn i16_to_be_bytes(v: i16) -> (r: [u8; 2])
    ensures
        r@ == seq![hi_byte(v), lo_byte(v)],
{
    let u = v as u16;
    [(u >> 8) as u8, #[verifier::truncate] (u as u8)]
}

/// The coordinate a big-endian byte pair holds.
fn i16_from_be_bytes(hi: u8, lo: u8) -> (r: i16)
    ensures
        r == i16_of_bytes(hi, lo),
{
    #[verifier::truncate] ((((hi as u16) << 8) | (lo as u16)) as i16)
}

} // verus!
