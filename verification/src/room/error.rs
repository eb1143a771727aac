//! Why the room refuses something.
use vstd::prelude::*;

verus! {

#[derive(Debug, Clone, Copy, PartialEq, Eq, Structural)]
pub enum ErrorKind {
    /// Every seat is taken.
    RoomFullfilled,
    _Unknown,
}

} // verus!
