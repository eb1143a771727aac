# drawroom

The game logic of a draw-and-guess service, verified with Verus.

Players sit in the eight seats of a room. When at least two have joined and all are
ready, turns go round the table: the drawer gets a word, the others guess it in the
chat, and after each turn the guessers mark the drawing. A lobby lists the rooms and
a word service hands out random words of a lexicon.

- `src/` is the verified library.
  - `room/` is the room: its state machine (`Room::step`, with the rule of each
    phase in `room/step.rs` and the handlers in `room/handlers.rs`), its settings and
    word sources, and the laws that hold across steps (`room/laws.rs`).
  - `player.rs` is a seat's record; `protocol.rs` the messages; `login.rs` the
    handshake rule; `hall.rs` the lobby's room list; `lexicon_db.rs` the word
    service's queries; `text.rs` the numerals and the hexadecimal reading.
- `tests/` runs the library on concrete games.
- `app/` holds the three programs around it (rooms, lobby, word service): sockets,
  timers, the database and the HTTP routes. A room's task hands each request to
  `Room::step` and carries out the actions it returns.
