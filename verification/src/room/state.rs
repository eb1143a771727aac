//! Where the room is in a game.
use vstd::prelude::*;

verus! {

/// The phase of the game. `Drawing(d)` and `Marking(d)` carry the seat of the drawer.
#[derive(Debug, Clone, Copy, PartialEq, Eq, Structural)]
pub enum Stage {
    Unready,
    Ready,
    Drawing(usize),
    Marking(usize),
    Over,
}

/// The room's game state: the current word, the phase and how many players joined.
pub struct State {
    pub topic: String,
    pub stage: Stage,
    pub player_count: u8,
}

/// The word a room holds before any turn has chosen one.
pub open spec fn placeholder_topic() -> Seq<char> {
    "当你看到这个，意味着设置关键词的逻辑上出现了bug"@
}

impl State {
    pub fn new() -> (s: State)
        ensures
            s.stage == Stage::Unready,
            s.player_count == 0,
            s.topic@ == placeholder_topic(),
    {
        State {
            stage: Stage::Unready,
            player_count: 0,
            topic: String::from_str("当你看到这个，意味着设置关键词的逻辑上出现了bug"),
        }
    }
}

} // verus!
