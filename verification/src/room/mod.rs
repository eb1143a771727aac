//! A room: eight seats, a game that goes round the table, and the rules that decide
//! what each request changes and whom the room tells about it.
pub mod config;
pub mod error;
pub mod handlers;
pub mod laws;
pub mod request;
pub mod state;
pub mod step;

use vstd::prelude::*;

use crate::consts::ROOM_SIZE;
use crate::player::Player;
use crate::protocol::{ObserverResponse, PlayerResponse, PlayerState, RoomState};
use crate::text::{occurs_in, str_contains};
use self::config::{Config, Lexicon};
use self::error::ErrorKind;
use self::request::{Request, TimerType};
use self::state::{Stage, State};

verus! {

/// One thing the room asks its surroundings to do, in order.
#[derive(Debug, PartialEq)]
pub enum Action {
    /// Deliver the response to the players in these seats, in this order.
    Send(Vec<usize>, PlayerResponse),
    /// Deliver the response to every observer.
    Feed(ObserverResponse),
    /// Start a countdown of this many seconds, in place of the running one.
    SetTimer(usize, TimerType),
    /// Stop the running countdown.
    StopTimer,
    /// The waiting player connection takes this seat.
    Attach(usize),
    /// Close the connection of the player in this seat.
    Detach(usize),
    /// Register the waiting observer connection under this local name.
    AddObserver(String),
    /// Forget the observer with this local name.
    RemoveObserver(String),
}

/// What the room is given to go on with: a request (while it waits for one), a tick
/// (while it is between turns) or the word for the turn it is starting.
#[derive(Debug, PartialEq)]
pub enum Input {
    Request(Request),
    Tick,
    Word(Option<String>),
}

/// The kind of input the room waits for.
#[derive(Debug, Clone, Copy, PartialEq, Eq, Structural)]
pub enum Awaiting {
    /// The word for the turn that is starting.
    Word,
    /// A tick: the room is between turns and goes on by itself.
    Tick,
    /// The next request.
    Request,
}

/// The room. `timepoint` counts the seconds of the running turn; `pending` is the seat of
/// a drawer whose turn waits for its word.
pub struct Room {
    pub config: Config,
    pub state: State,
    pub players: [Option<Player>; ROOM_SIZE],
    pub timepoint: u16,
    pub pending: Option<usize>,
}

/// The occupied seats below `n` other than `except`, in increasing order.
pub open spec fn seated(ps: Seq<Option<Player>>, except: int, n: int) -> Seq<usize>
    decreases n,
{
    if n <= 0 {
        seq![]
    } else if ps[n - 1] is Some && n - 1 != except {
        seated(ps, except, n - 1).push((n - 1) as usize)
    } else {
        seated(ps, except, n - 1)
    }
}

/// Every occupied seat, in order.
pub open spec fn everyone(ps: Seq<Option<Player>>) -> Seq<usize> {
    seated(ps, -1, ROOM_SIZE as int)
}

/// Every occupied seat but `i`, in order.
pub open spec fn all_but(ps: Seq<Option<Player>>, i: int) -> Seq<usize> {
    seated(ps, i, ROOM_SIZE as int)
}

/// Seat `i` alone if it is occupied, else nobody.
pub open spec fn seat_of(ps: Seq<Option<Player>>, i: int) -> Seq<usize> {
    if 0 <= i < ROOM_SIZE && ps[i] is Some {
        seq![i as usize]
    } else {
        seq![]
    }
}

/// The entries of the occupied seats below `n`, in seat order.
pub open spec fn states_upto(ps: Seq<Option<Player>>, n: int) -> Seq<PlayerState>
    decreases n,
{
    if n <= 0 {
        seq![]
    } else if ps[n - 1] is Some {
        states_upto(ps, n - 1).push(ps[n - 1]->0.state_at(n - 1))
    } else {
        states_upto(ps, n - 1)
    }
}

/// The player list that the room shows.
pub open spec fn player_list(ps: Seq<Option<Player>>) -> Seq<PlayerState> {
    states_upto(ps, ROOM_SIZE as int)
}

/// How many of the seats below `n` are occupied.
pub open spec fn occupied(ps: Seq<Option<Player>>, n: int) -> nat
    decreases n,
{
    if n <= 0 {
        0
    } else if ps[n - 1] is Some {
        occupied(ps, n - 1) + 1
    } else {
        occupied(ps, n - 1)
    }
}

/// How many seats are occupied.
pub open spec fn head_count(ps: Seq<Option<Player>>) -> nat {
    occupied(ps, ROOM_SIZE as int)
}

/// Everybody seated is ready.
pub open spec fn all_ready(ps: Seq<Option<Player>>) -> bool {
    forall|i: int| 0 <= i < ROOM_SIZE && #[trigger] ps[i] is Some ==> ps[i]->0.ready
}

/// Everybody seated but the drawer `d` guessed the drawer's word.
pub open spec fn all_right(ps: Seq<Option<Player>>, d: int) -> bool {
    forall|i: int| 0 <= i < ROOM_SIZE && i != d && #[trigger] ps[i] is Some ==> ps[i]->0.right@[d]
}

/// Seat `i` holds a ready player.
pub open spec fn ready_at(ps: Seq<Option<Player>>, i: int) -> bool {
    ps[i] is Some && ps[i]->0.ready
}

/// `i` is the first seat from `start` on that holds a ready player.
pub open spec fn is_next_drawer(ps: Seq<Option<Player>>, start: int, i: int) -> bool {
    &&& start <= i < ROOM_SIZE
    &&& ready_at(ps, i)
    &&& forall|j: int| start <= j < i ==> !#[trigger] ready_at(ps, j)
}

/// No seat from `start` on holds a ready player.
pub open spec fn none_ready_from(ps: Seq<Option<Player>>, start: int) -> bool {
    forall|j: int| start <= j < ROOM_SIZE ==> !#[trigger] ready_at(ps, j)
}

/// `i` is the first free seat.
pub open spec fn is_first_free(ps: Seq<Option<Player>>, i: int) -> bool {
    &&& 0 <= i < ROOM_SIZE
    &&& ps[i] is None
    &&& forall|j: int| 0 <= j < i ==> #[trigger] ps[j] is Some
}

/// Every seat is taken.
pub open spec fn full(ps: Seq<Option<Player>>) -> bool {
    forall|j: int| 0 <= j < ROOM_SIZE ==> #[trigger] ps[j] is Some
}

/// What observers are told of the room's stage.
pub open spec fn stage_text(s: Stage) -> Seq<char> {
    if s is Unready {
        "unready"@
    } else {
        "gaming"@
    }
}

/// `rs` describes `room` as observers see it.
pub open spec fn shows(rs: RoomState, room: Room) -> bool {
    &&& rs.stage@ == stage_text(room.state.stage)
    &&& rs.playercount == room.state.player_count
    &&& rs.user_lexicon == room.config.lexicon is Upload
    &&& rs.lexicon == (match room.config.lexicon {
        Lexicon::Server(code) => code,
        _ => 0u32,
    })
}

/// The action delivers `r` to the seats `to`.
pub open spec fn sends(a: Action, to: Seq<usize>, r: PlayerResponse) -> bool {
    a matches Action::Send(t, x) && t@ == to && x == r
}

/// The action delivers the player list `list` to the seats `to`.
pub open spec fn sends_list(a: Action, to: Seq<usize>, list: Seq<PlayerState>) -> bool {
    a matches Action::Send(t, PlayerResponse::PlayerStates(v)) && t@ == to && v@ == list
}

/// The action delivers a notice with the text `text` to the seats `to`.
pub open spec fn sends_notice(a: Action, to: Seq<usize>, text: Seq<char>) -> bool {
    a matches Action::Send(t, PlayerResponse::Notice { msg }) && t@ == to && msg@ == text
}

/// The action delivers the chat line `msg` of `sender` to the seats `to`.
pub open spec fn sends_chat(a: Action, to: Seq<usize>, sender: Seq<char>, msg: String) -> bool {
    a matches Action::Send(t, PlayerResponse::Chat { sender: s, msg: m }) && t@ == to && s@ == sender
        && m == msg
}

/// The action tells the observers how `room` stands.
pub open spec fn feeds(a: Action, room: Room) -> bool {
    a matches Action::Feed(ObserverResponse::RoomState(rs)) && shows(rs, room)
}

impl Room {
    /// The shape every room keeps: eight seats, a drawer that is a seat, no more players
    /// counted than seated, no repository lexicon, and a waiting drawer only between turns
    /// (after the drawer being marked, when there is one).
    pub open spec fn wf(&self) -> bool {
        &&& self.players@.len() == ROOM_SIZE
        &&& self.state.player_count <= head_count(self.players@)
        &&& match self.state.stage {
            Stage::Drawing(d) => d < ROOM_SIZE,
            Stage::Marking(d) => d < ROOM_SIZE,
            _ => true,
        }
        &&& !(self.config.lexicon is Git)
        &&& match self.pending {
            Some(n) => n < ROOM_SIZE && match self.state.stage {
                Stage::Ready => true,
                Stage::Marking(d) => d < n,
                _ => false,
            },
            None => true,
        }
    }

    /// No seat but `d` is occupied.
    pub open spec fn alone(&self, d: int) -> bool {
        forall|i: int| 0 <= i < ROOM_SIZE && i != d ==> #[trigger] self.players@[i] is None
    }

    /// The number of players the room counts is the number seated.
    pub open spec fn counted(&self) -> bool {
        self.state.player_count == head_count(self.players@)
    }

    pub fn new() -> (r: Room)
        ensures
            r.wf(),
            r.counted(),
            r.state.stage == Stage::Unready,
            r.state.player_count == 0,
            r.state.topic@ == state::placeholder_topic(),
            r.config.round_time == 90,
            r.config.token is None,
            !r.config.lexicon_lock,
            r.config.lexicon == Lexicon::Server(config::DEFAULT_LEXCODE),
            forall|i: int| 0 <= i < ROOM_SIZE ==> #[trigger] r.players@[i] is None,
            r.timepoint == 0,
            r.pending is None,
    {
        let players: [Option<Player>; ROOM_SIZE] = [None, None, None, None, None, None, None, None];
        let r = Room { config: Config::new(), state: State::new(), players, timepoint: 0, pending: None };
        proof {
            lemma_occupied_none(r.players@, ROOM_SIZE as int);
        }
        r
    }

    /// The occupied seats other than `except` (all of them when it is none), in order.
    fn seats(&self, except: Option<usize>) -> (v: Vec<usize>)
        requires
            self.players@.len() == ROOM_SIZE,
        ensures
            v@ == seated(self.players@, match except { Some(e) => e as int, None => -1 }, ROOM_SIZE as int),
    {
        let ghost ex: int = match except { Some(e) => e as int, None => -1 };
        let mut v: Vec<usize> = Vec::new();
        let mut idx: usize = 0;
        while idx < ROOM_SIZE
            invariant
                idx <= ROOM_SIZE,
                self.players@.len() == ROOM_SIZE,
                ex == (match except { Some(e) => e as int, None => -1 }),
                v@ == seated(self.players@, ex, idx as int),
            decreases ROOM_SIZE - idx,
        {
            let skip = match except { Some(e) => e == idx, None => false };
            if self.players[idx].is_some() && !skip {
                v.push(idx);
            }
            idx = idx + 1;
        }
        v
    }

    /// Delivers `resp` to the player in seat `idx`, if there is one.
    pub fn send(&self, idx: usize, resp: PlayerResponse) -> (a: Action)
        requires
            self.players@.len() == ROOM_SIZE,
        ensures
            sends(a, seat_of(self.players@, idx as int), resp),
    {
        let mut to: Vec<usize> = Vec::new();
        if idx < ROOM_SIZE && self.players[idx].is_some() {
            to.push(idx);
        }
        assert(to@ =~= seat_of(self.players@, idx as int));
        Action::Send(to, resp)
    }

    /// Delivers `resp` to every seated player.
    pub fn broadcast(&self, resp: PlayerResponse) -> (a: Action)
        requires
            self.players@.len() == ROOM_SIZE,
        ensures
            sends(a, everyone(self.players@), resp),
    {
        Action::Send(self.seats(None), resp)
    }

    /// Delivers `resp` to every seated player but the one in seat `except`.
    pub fn broadcast_except(&self, resp: PlayerResponse, except: usize) -> (a: Action)
        requires
            self.players@.len() == ROOM_SIZE,
        ensures
            sends(a, all_but(self.players@, except as int), resp),
    {
        Action::Send(self.seats(Some(except)), resp)
    }

    /// Tells every observer `resp`.
    pub fn feed(&self, resp: ObserverResponse) -> (a: Action)
        ensures
            a == Action::Feed(resp),
    {
        Action::Feed(resp)
    }

    /// At least two players are seated (as counted) and all of them are ready.
    pub fn every_one_ready(&self) -> (b: bool)
        requires
            self.players@.len() == ROOM_SIZE,
        ensures
            b == (self.state.player_count >= 2 && all_ready(self.players@)),
            b <==> self.state.player_count >= 2 && forall|i: int|
                0 <= i < ROOM_SIZE && #[trigger] self.players@[i] is Some ==> self.players@[i]->0.ready,
    {
        if self.state.player_count < 2 {
            return false;
        }
        let mut is_all_ready = true;
        let mut idx: usize = 0;
        while idx < ROOM_SIZE
            invariant
                idx <= ROOM_SIZE,
                self.players@.len() == ROOM_SIZE,
                is_all_ready == (forall|i: int| 0 <= i < idx && #[trigger] self.players@[i] is Some
                    ==> self.players@[i]->0.ready),
            decreases ROOM_SIZE - idx,
        {
            if let Some(player) = &self.players[idx] {
                is_all_ready = is_all_ready && player.ready;
            }
            idx = idx + 1;
        }
        is_all_ready
    }

    /// Every seated player but the drawer in seat `drawer_idx` guessed the drawer's word.
    pub fn every_one_right(&self, drawer_idx: usize) -> (b: bool)
        requires
            self.players@.len() == ROOM_SIZE,
            drawer_idx < ROOM_SIZE || self.alone(drawer_idx as int),
        ensures
            b == all_right(self.players@, drawer_idx as int),
            b <==> forall|i: int|
                0 <= i < ROOM_SIZE && i != drawer_idx && #[trigger] self.players@[i] is Some
                    ==> self.players@[i]->0.right@[drawer_idx as int],
    {
        let mut is_every_one_right = true;
        let mut idx: usize = 0;
        while idx < ROOM_SIZE
            invariant
                idx <= ROOM_SIZE,
                drawer_idx < ROOM_SIZE || self.alone(drawer_idx as int),
                self.players@.len() == ROOM_SIZE,
                is_every_one_right == (forall|i: int| 0 <= i < idx && i != drawer_idx
                    && #[trigger] self.players@[i] is Some ==> self.players@[i]->0.right@[drawer_idx as int]),
            decreases ROOM_SIZE - idx,
        {
            if idx != drawer_idx {
                if let Some(player) = &self.players[idx] {
                    is_every_one_right = is_every_one_right && player.right[drawer_idx];
                }
            }
            idx = idx + 1;
        }
        is_every_one_right
    }

    /// The name of the player in seat `idx`.
    pub fn get_name(&self, idx: usize) -> (n: String)
        requires
            idx < self.players@.len(),
            self.players@[idx as int] is Some,
        ensures
            n == self.players@[idx as int]->0.name,
    {
        self.players[idx].as_ref().unwrap().get_name()
    }

    /// The player list, in seat order.
    pub fn player_states(&self) -> (v: Vec<PlayerState>)
        requires
            self.players@.len() == ROOM_SIZE,
        ensures
            v@ == player_list(self.players@),
            forall|k: int| #![trigger v@[k]] 0 <= k < v@.len() ==> {
                let s = v@[k].idx as int;
                &&& s < ROOM_SIZE
                &&& self.players@[s] matches Some(p) && v@[k] == p.state_at(s)
            },
            forall|k1: int, k2: int| 0 <= k1 < k2 < v@.len() ==> #[trigger] v@[k1].idx < #[trigger] v@[k2].idx,
            forall|i: int| 0 <= i < ROOM_SIZE && #[trigger] self.players@[i] is Some ==> exists|k: int|
                0 <= k < v@.len() && #[trigger] v@[k].idx == i,
    {
        let mut res: Vec<PlayerState> = Vec::with_capacity(ROOM_SIZE);
        let mut idx: usize = 0;
        while idx < ROOM_SIZE
            invariant
                idx <= ROOM_SIZE,
                self.players@.len() == ROOM_SIZE,
                res@ == states_upto(self.players@, idx as int),
            decreases ROOM_SIZE - idx,
        {
            if let Some(player) = &self.players[idx] {
                res.push(player.get_state(idx));
            }
            idx = idx + 1;
        }
        proof {
            laws::lemma_states_upto(self.players@, ROOM_SIZE as int);
        }
        res
    }

    /// The room as observers see it.
    pub fn get_room_states(&self) -> (r: ObserverResponse)
        ensures
            r matches ObserverResponse::RoomState(rs) && shows(rs, *self),
            r matches ObserverResponse::RoomState(rs) && rs.stage@ == (if self.state.stage is Unready {
                "unready"@
            } else {
                "gaming"@
            }),
            r matches ObserverResponse::RoomState(rs) && rs.playercount == self.state.player_count
                && rs.user_lexicon == (self.config.lexicon is Upload)
                && rs.lexicon == (if self.config.lexicon is Server { self.config.lexicon->Server_0 } else { 0 }),
    {
        let stage = match self.state.stage {
            Stage::Unready => String::from_str("unready"),
            _ => String::from_str("gaming"),
        };
        let playercount = self.state.player_count;
        let user_lexicon = match self.config.lexicon {
            Lexicon::Upload(_) => true,
            _ => false,
        };
        let lexicon = match self.config.lexicon {
            Lexicon::Server(code) => code,
            _ => 0,
        };
        ObserverResponse::RoomState(RoomState { stage, playercount, user_lexicon, lexicon })
    }

    /// The first seat after `current` (from the first seat when there is none) that holds
    /// a ready player.
    pub fn get_next_drawer(&self, current: Option<usize>) -> (r: Option<usize>)
        requires
            self.players@.len() == ROOM_SIZE,
            current matches Some(c) ==> c < usize::MAX,
        ensures
            ({
                let start = match current { Some(c) => c + 1, None => 0 };
                &&& r matches Some(i) ==> is_next_drawer(self.players@, start, i as int)
                &&& r is None ==> none_ready_from(self.players@, start)
            }),
    {
        let mut start: usize = 0;
        if let Some(current_drawer) = current {
            start = current_drawer + 1;
        }
        let mut idx: usize = start;
        while idx < ROOM_SIZE
            invariant
                start <= idx,
                start == (match current { Some(c) => c + 1, None => 0 }),
                self.players@.len() == ROOM_SIZE,
                forall|j: int| start <= j < idx ==> !#[trigger] ready_at(self.players@, j),
            decreases ROOM_SIZE - idx,
        {
            if let Some(player) = &self.players[idx] {
                if player.ready {
                    return Some(idx);
                }
            }
            idx = idx + 1;
        }
        None
    }

    /// The answer holds the current word.
    pub fn check_answer(&self, answer: &String) -> (b: bool)
        ensures
            b == occurs_in(self.state.topic@, answer@),
    {
        str_contains(answer.as_str(), self.state.topic.as_str())
    }

    /// Clears the record of the game of every seated player; names and seats stay.
    pub fn reset_all(&mut self)
        requires
            old(self).players@.len() == ROOM_SIZE,
        ensures
            final(self).players@.len() == ROOM_SIZE,
            forall|i: int| 0 <= i < ROOM_SIZE ==> (#[trigger] final(self).players@[i] is Some
                <==> old(self).players@[i] is Some),
            forall|i: int| 0 <= i < ROOM_SIZE && #[trigger] final(self).players@[i] is Some ==> {
                &&& final(self).players@[i]->0.is_fresh()
                &&& final(self).players@[i]->0.name == old(self).players@[i]->0.name
            },
            final(self).config == old(self).config,
            final(self).state == old(self).state,
            final(self).timepoint == old(self).timepoint,
            final(self).pending == old(self).pending,
    {
        let mut idx: usize = 0;
        while idx < ROOM_SIZE
            invariant
                idx <= ROOM_SIZE,
                self.players@.len() == ROOM_SIZE,
                forall|i: int| 0 <= i < ROOM_SIZE ==> (#[trigger] self.players@[i] is Some
                    <==> old(self).players@[i] is Some),
                forall|i: int| 0 <= i < idx && #[trigger] self.players@[i] is Some ==> {
                    &&& self.players@[i]->0.is_fresh()
                    &&& self.players@[i]->0.name == old(self).players@[i]->0.name
                },
                forall|i: int| idx <= i < ROOM_SIZE ==> #[trigger] self.players@[i] == old(self).players@[i],
                self.config == old(self).config,
                self.state == old(self).state,
                self.timepoint == old(self).timepoint,
                self.pending == old(self).pending,
            decreases ROOM_SIZE - idx,
        {
            if let Some(player) = &mut self.players[idx] {
                player.reset();
            }
            idx = idx + 1;
        }
    }

    /// Seats a newcomer in the first free seat and counts it; with every seat taken the
    /// room stays as it was and answers `RoomFullfilled`.
    fn seat_newcomer(&mut self) -> (r: Result<usize, ErrorKind>)
        requires
            old(self).wf(),
        ensures
            final(self).wf(),
            r matches Ok(i) ==> {
                &&& is_first_free(old(self).players@, i as int)
                &&& final(self).players@ == old(self).players@.update(i as int, final(self).players@[i as int])
                &&& final(self).players@[i as int] matches Some(p) && p.is_fresh()
                    && p.name@ == crate::player::seat_name(i as nat)
                &&& final(self).state.player_count == old(self).state.player_count + 1
                &&& final(self).state.stage == old(self).state.stage
                &&& final(self).state.topic == old(self).state.topic
                &&& final(self).config == old(self).config
                &&& final(self).timepoint == old(self).timepoint
                &&& final(self).pending == old(self).pending
            },
            r matches Err(e) ==> e == ErrorKind::RoomFullfilled && full(old(self).players@)
                && *final(self) == *old(self),
    {
        let mut idx: usize = 0;
        while idx < ROOM_SIZE
            invariant
                idx <= ROOM_SIZE,
                *self == *old(self),
                self.wf(),
                forall|j: int| 0 <= j < idx ==> #[trigger] self.players@[j] is Some,
            decreases ROOM_SIZE - idx,
        {
            if self.players[idx].is_none() {
                let ghost before = self.players@;
                let player = Player::new(idx);
                self.players[idx] = Some(player);
                proof {
                    lemma_occupied_bound(before, ROOM_SIZE as int);
                    lemma_occupied_update(before, idx as int, self.players@[idx as int], ROOM_SIZE as int);
                    assert(self.players@ == before.update(idx as int, self.players@[idx as int]));
                }
                self.state.player_count = self.state.player_count + 1;
                return Ok(idx);
            }
            idx = idx + 1;
        }
        Err(ErrorKind::RoomFullfilled)
    }

    /// Frees seat `idx` and drops the count by one.
    fn free_seat(&mut self, idx: usize)
        requires
            old(self).wf(),
            idx < ROOM_SIZE,
            old(self).state.player_count > 0,
        ensures
            final(self).wf(),
            final(self).players@ == old(self).players@.update(idx as int, None),
            final(self).state.player_count == old(self).state.player_count - 1,
            final(self).state.stage == old(self).state.stage,
            final(self).state.topic == old(self).state.topic,
            final(self).config == old(self).config,
            final(self).timepoint == old(self).timepoint,
            final(self).pending == old(self).pending,
    {
        proof {
            lemma_occupied_update(self.players@, idx as int, None, ROOM_SIZE as int);
        }
        self.state.player_count = self.state.player_count - 1;
        self.players[idx] = None;
    }

    /// What the room waits for: the word of a drawer whose turn is starting, a tick when
    /// the game is about to begin or is over, and otherwise the next request.
    pub fn awaiting(&self) -> (w: Awaiting)
        ensures
            w == Awaiting::Word <==> self.pending is Some,
            w == Awaiting::Tick <==> (self.pending is None && (self.state.stage is Ready || self.state.stage is Over)),
    {
        if self.pending.is_some() {
            Awaiting::Word
        } else {
            match self.state.stage {
                Stage::Ready => Awaiting::Tick,
                Stage::Over => Awaiting::Tick,
                _ => Awaiting::Request,
            }
        }
    }

    /// The check that a caller makes before handing the room `input`: what the room would
    /// otherwise run into (a seat that is not there, an empty seat it reads, a count that
    /// would pass its limit), and that the input suits where the room is.
    pub fn accepts(&self, input: &Input) -> (b: bool)
        requires
            self.wf(),
        ensures
            b == self.admits(*input),
    {
        match input {
            Input::Word(_) => self.pending.is_some(),
            Input::Tick => self.pending.is_none() && match self.state.stage {
                Stage::Ready => true,
                Stage::Over => true,
                _ => false,
            },
            Input::Request(req) => {
                if self.pending.is_some() {
                    return false;
                }
                match self.state.stage {
                    Stage::Unready => self.unready_accepts(req),
                    Stage::Drawing(d) => self.drawing_accepts(d, req),
                    Stage::Marking(d) => self.marking_accepts(d, req),
                    _ => false,
                }
            },
        }
    }
}

/// A seat that is filled or emptied moves the head count by one.
pub proof fn lemma_occupied_update(ps: Seq<Option<Player>>, i: int, v: Option<Player>, n: int)
    requires
        0 <= i < ps.len(),
        n <= ps.len(),
    ensures
        i >= n ==> occupied(ps.update(i, v), n) == occupied(ps, n),
        i < n && (ps[i] is Some) == (v is Some) ==> occupied(ps.update(i, v), n) == occupied(ps, n),
        i < n && ps[i] is None && v is Some ==> occupied(ps.update(i, v), n) == occupied(ps, n) + 1,
        i < n && ps[i] is Some && v is None ==> occupied(ps.update(i, v), n) + 1 == occupied(ps, n),
    decreases n,
{
    if n > 0 {
        lemma_occupied_update(ps, i, v, n - 1);
    }
}

/// No more seats below `n` are occupied than there are.
pub proof fn lemma_occupied_bound(ps: Seq<Option<Player>>, n: int)
    ensures
        occupied(ps, n) <= if n < 0 { 0 } else { n },
    decreases n,
{
    if n > 0 {
        lemma_occupied_bound(ps, n - 1);
    }
}

/// Empty seats count nothing.
pub proof fn lemma_occupied_none(ps: Seq<Option<Player>>, n: int)
    requires
        n <= ps.len(),
        forall|i: int| 0 <= i < n ==> #[trigger] ps[i] is None,
    ensures
        occupied(ps, n) == 0,
    decreases n,
{
    if n > 0 {
        lemma_occupied_none(ps, n - 1);
    }
}

} // verus!
