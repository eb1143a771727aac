//! Sizes shared by the room and its players.
use vstd::prelude::*;

verus! {

/// The number of seats in a room.
pub const ROOM_SIZE: usize = 8;

} // verus!
