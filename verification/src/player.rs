//! A seat at the table: one player's readiness, guesses and scores.
use vstd::prelude::*;

use crate::consts::ROOM_SIZE;
use crate::protocol::PlayerState;
use crate::text::{decimal, decimal_string};

verus! {

/// One connected player. `right[d]` records that this player guessed the word that the
/// player in seat `d` drew; `score` counts the marks received as a drawer (bad, mixed,
/// good); `timepoint` sums the seconds this player needed to guess; `drawpoint` counts
/// the correct guesses.
pub struct Player {
    pub ready: bool,
    pub name: String,
    pub right: [bool; ROOM_SIZE],
    pub score: [u8; 3],
    pub timepoint: u16,
    pub drawpoint: u8,
}

/// The slot of `score` that a mark counts in: -1 is bad, 1 is good, anything else mixed.
pub open spec fn mark_slot(mark: i8) -> int {
    if mark == -1 {
        0
    } else if mark == 1 {
        2
    } else {
        1
    }
}

/// The name a player has before choosing one: the seat number in angle brackets.
pub open spec fn seat_name(idx: nat) -> Seq<char> {
    seq!['<'] + decimal(idx) + seq!['>']
}

impl Player {
    /// Nothing of the current game is recorded: not ready, no guess, no score.
    pub open spec fn is_fresh(&self) -> bool {
        &&& !self.ready
        &&& forall|i: int| 0 <= i < ROOM_SIZE ==> !#[trigger] self.right@[i]
        &&& self.score@ == seq![0u8, 0u8, 0u8]
        &&& self.timepoint == 0
        &&& self.drawpoint == 0
    }

    /// How this player, sitting in seat `idx`, appears in the player list.
    pub open spec fn state_at(self, idx: int) -> PlayerState {
        PlayerState {
            name: self.name,
            ready: self.ready,
            idx: idx as u8,
            score: self.score,
            timepoint: self.timepoint,
            drawpoint: self.drawpoint,
        }
    }

    /// A newcomer in seat `idx`.
    pub fn new(idx: usize) -> (p: Player)
        ensures
            p.is_fresh(),
            p.name@ == seat_name(idx as nat),
    {
        proof {
            reveal_strlit("<");
            reveal_strlit(">");
        }
        let name = String::from_str("<").concat(decimal_string(idx as u64).as_str()).concat(">");
        let p = Player {
            ready: false,
            name,
            right: [false, false, false, false, false, false, false, false],
            score: [0, 0, 0],
            timepoint: 0,
            drawpoint: 0,
        };
        assert(p.score@ =~= seq![0u8, 0u8, 0u8]);
        p
    }

    pub fn ready(&mut self)
        ensures
            *final(self) == (Player { ready: true, ..*old(self) }),
    {
        self.ready = true;
    }

    pub fn unready(&mut self)
        ensures
            *final(self) == (Player { ready: false, ..*old(self) }),
    {
        self.ready = false;
    }

    /// Records that this player guessed the word of the drawer in seat `idx`.
    pub fn set_right(&mut self, idx: usize)
        requires
            idx < ROOM_SIZE,
        ensures
            final(self).right@ == old(self).right@.update(idx as int, true),
            final(self).ready == old(self).ready,
            final(self).name == old(self).name,
            final(self).score == old(self).score,
            final(self).timepoint == old(self).timepoint,
            final(self).drawpoint == old(self).drawpoint,
    {
        self.right[idx] = true;
    }

    pub fn add_draw_point(&mut self)
        requires
            old(self).drawpoint < u8::MAX,
        ensures
            *final(self) == (Player { drawpoint: (old(self).drawpoint + 1) as u8, ..*old(self) }),
    {
        self.drawpoint = self.drawpoint + 1;
    }

    /// This player's entry in the player list, for seat `idx`.
    pub fn get_state(&self, idx: usize) -> (s: PlayerState)
        ensures
            s == self.state_at(idx as int),
    {
        PlayerState {
            name: self.name.clone(),
            ready: self.ready,
            idx: idx as u8,
            score: self.score,
            timepoint: self.timepoint,
            drawpoint: self.drawpoint,
        }
    }

    pub fn set_name(&mut self, name: String)
        ensures
            *final(self) == (Player { name: name, ..*old(self) }),
    {
        self.name = name;
    }

    pub fn get_name(&self) -> (n: String)
        ensures
            n == self.name,
    {
        self.name.clone()
    }

    /// Counts a mark received as a drawer: -1 bad, 0 mixed, 1 good, any other value mixed.
    pub fn mark(&mut self, score: i8)
        requires
            old(self).score@[mark_slot(score)] < u8::MAX,
        ensures
            final(self).score@ == old(self).score@.update(
                mark_slot(score),
                (old(self).score@[mark_slot(score)] + 1) as u8,
            ),
            final(self).ready == old(self).ready,
            final(self).name == old(self).name,
            final(self).right == old(self).right,
            final(self).timepoint == old(self).timepoint,
            final(self).drawpoint == old(self).drawpoint,
    {
        let idx: usize = match score {
            -1 => 0,
            0 => 1,
            1 => 2,
            _ => 1,
        };
        self.score[idx] = self.score[idx] + 1;
    }

    /// Clears the record of the game; the name stays.
    pub fn reset(&mut self)
        ensures
            final(self).is_fresh(),
            final(self).name == old(self).name,
    {
        self.ready = false;
        self.right = [false, false, false, false, false, false, false, false];
        self.score = [0, 0, 0];
        self.timepoint = 0;
        self.drawpoint = 0;
        assert(self.score@ =~= seq![0u8, 0u8, 0u8]);
    }
}

} // verus!
