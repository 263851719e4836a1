//! Core of a two-peer snake game: the fixed eight-byte wire frame, the
//! toroidal grid arithmetic, the per-tick snake update rule, and the
//! role-asymmetric synchronization steps that keep both peers' simulations
//! identical. Connection setup, rendering and input capture live outside
//! this crate; they hand plain values (frames, directions, seeds) in and out.

use vstd::prelude::*;

pub mod codec;
pub mod connect;
pub mod grid;
pub mod snake;
pub mod sync;
pub mod rng;

verus! {

/// A decode failure of the wire frame: one of the two strict direction
/// slots held a byte outside the four valid discriminants.
#[derive(Clone, Copy, PartialEq, Eq, Structural, Debug)]
pub enum ProtocolError {
    InvalidDirectionByte,
}

} // verus!
