//! The messages that players, observers and the room exchange.
use vstd::prelude::*;

verus! {

/// What a player's client asks of the room.
#[derive(PartialEq, Debug, Clone)]
pub enum PlayerRequest {
    SetName { name: String },
    Chat { msg: String },
    ImReady,
    ImUnready,
    Frame { bin: Vec<u8> },
    Mark { score: i8 },
    Lexicon(Vec<String>),
    LexiconService(u32),
}

/// A word list as the lexicon service describes it.
#[derive(Debug, Clone, PartialEq)]
pub struct Lexicon {
    pub name: String,
    pub lang: String,
    pub author: String,
    pub tags: Vec<String>,
    pub version: String,
    pub brief: String,
    pub lexicon: Vec<String>,
}

/// One player as the room shows it to everybody.
#[derive(Debug, Clone, PartialEq)]
pub struct PlayerState {
    pub name: String,
    pub ready: bool,
    pub idx: u8,
    pub score: [u8; 3],
    pub timepoint: u16,
    pub drawpoint: u8,
}

/// The room as observers (the lobby) see it.
#[derive(Debug, Clone, PartialEq)]
pub struct RoomState {
    pub stage: String,
    pub playercount: u8,
    pub user_lexicon: bool,
    pub lexicon: u32,
}

/// What the room tells a player.
#[derive(Debug, Clone, PartialEq)]
pub enum PlayerResponse {
    PlayerStates(Vec<PlayerState>),
    Chat { sender: String, msg: String },
    Notice { msg: String },
    GameStart,
    GameEnd,
    TurnStart(u8),
    TurnEnd,
    Topic { topic_word: String },
    Frame { bin: Vec<u8> },
    Poll,
    MarkStart,
    MarkEnd,
    CountDown(u8),
}

/// What the room tells its observers.
#[derive(Debug, Clone, PartialEq)]
pub enum ObserverResponse {
    RoomState(RoomState),
}

} // verus!
