//! Game logic of a room-based draw-and-guess service: the room's state machine,
//! its players, the wire messages, the login rules, the lobby's room list and the
//! queries of the word service.
pub mod consts;
pub mod hall;
pub mod lexicon_db;
pub mod login;
pub mod player;
pub mod protocol;
pub mod room;
pub mod text;
