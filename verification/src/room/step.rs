//! The room's rules: for each phase of the game, what a request, a tick or a word
//! changes, and what the room has done in answer.
use vstd::prelude::*;

use crate::consts::ROOM_SIZE;
use crate::player::{mark_slot, Player};
use crate::protocol::{PlayerRequest, PlayerResponse};
use crate::text::occurs_in;
use super::config::{Config, Lexicon};
use super::request::{Request, TimerType};
use super::state::Stage;
use super::{
    all_but, all_ready, all_right, everyone, feeds, full, is_first_free, is_next_drawer,
    none_ready_from, player_list, seat_of, sends, sends_chat, sends_list, sends_notice, Action, Input,
    Room,
};

verus! {

/// The name under which an observer from `addr` calling itself `name` is known.
pub open spec fn observer_name(addr: Seq<char>, name: Seq<char>) -> Seq<char> {
    addr + "["@ + name + "]"@
}

/// The words with which a mark is announced.
pub open spec fn verdict(score: i8) -> Seq<char> {
    if score == -1 {
        "差评如潮"@
    } else if score == 0 {
        "褒贬不一"@
    } else {
        "好评如潮"@
    }
}

/// Everything but the seats and the head count is as it was.
pub open spec fn same_but_seats(pre: Room, post: Room) -> bool {
    &&& post.config == pre.config
    &&& post.state == pre.state
    &&& post.timepoint == pre.timepoint
    &&& post.pending == pre.pending
}

/// Player `q` is player `p` with one more mark `score`.
pub open spec fn marked(p: Player, q: Player, score: i8) -> bool {
    &&& q.score@ == p.score@.update(mark_slot(score), (p.score@[mark_slot(score)] + 1) as u8)
    &&& q.ready == p.ready
    &&& q.name == p.name
    &&& q.right == p.right
    &&& q.timepoint == p.timepoint
    &&& q.drawpoint == p.drawpoint
}

/// Player `q` is player `p` after guessing the word of drawer `d` when the turn had run
/// `elapsed` seconds.
pub open spec fn guessed(p: Player, q: Player, d: int, elapsed: u16) -> bool {
    &&& q.right@ == p.right@.update(d, true)
    &&& q.timepoint == p.timepoint + elapsed
    &&& q.drawpoint == p.drawpoint + 1
    &&& q.ready == p.ready
    &&& q.name == p.name
    &&& q.score == p.score
}

/// A newcomer took the first free seat, which the first action names.
pub open spec fn login_step(pre: Room, post: Room, acts: Seq<Action>) -> bool {
    let ps = pre.players@;
    if full(ps) {
        post == pre && acts.len() == 0
    } else {
        &&& acts.len() == 3
        &&& acts[0] matches Action::Attach(i) && {
            &&& is_first_free(ps, i as int)
            &&& post.players@ == ps.update(i as int, post.players@[i as int])
            &&& post.players@[i as int] matches Some(p) && p.is_fresh() && p.name@
                == crate::player::seat_name(i as nat)
        }
        &&& post.state.player_count == pre.state.player_count + 1
        &&& post.state.stage == pre.state.stage
        &&& post.state.topic == pre.state.topic
        &&& post.config == pre.config
        &&& post.timepoint == pre.timepoint
        &&& post.pending == pre.pending
        &&& sends_list(acts[1], everyone(post.players@), player_list(post.players@))
        &&& feeds(acts[2], post)
    }
}

/// The player in seat `idx` left: observers and players hear of the room as it was, then
/// the seat is freed and the count drops.
pub open spec fn logout_step(pre: Room, idx: usize, post: Room, acts: Seq<Action>) -> bool {
    let ps = pre.players@;
    &&& post.players@ == ps.update(idx as int, None)
    &&& post.state.player_count == pre.state.player_count - 1
    &&& post.state.stage == pre.state.stage
    &&& post.state.topic == pre.state.topic
    &&& post.config == pre.config
    &&& post.timepoint == pre.timepoint
    &&& post.pending == pre.pending
    &&& acts.len() == 3
    &&& feeds(acts[0], pre)
    &&& sends_list(acts[1], everyone(ps), player_list(ps))
    &&& acts[2] == Action::Detach(idx)
}

/// An observer arrived: it is registered, then all observers hear how the room stands.
pub open spec fn observer_login_step(
    pre: Room,
    addr: String,
    name: String,
    post: Room,
    acts: Seq<Action>,
) -> bool {
    &&& post == pre
    &&& acts.len() == 2
    &&& acts[0] matches Action::AddObserver(n) && n@ == observer_name(addr@, name@)
    &&& feeds(acts[1], pre)
}

/// What a request does while the room waits for everybody to be ready.
pub open spec fn unready_step(pre: Room, req: Request, post: Room, acts: Seq<Action>) -> bool {
    let ps = pre.players@;
    match req {
        Request::PlayerReq(idx, r) => {
            let i = idx as int;
            let p = ps[i]->0;
            match r {
                PlayerRequest::SetName { name } => {
                    let qs = ps.update(i, Some(Player { name: name, ..p }));
                    &&& post.players@ == qs
                    &&& same_but_seats(pre, post)
                    &&& acts.len() == 1
                    &&& sends_list(acts[0], everyone(qs), player_list(qs))
                },
                PlayerRequest::Chat { msg } => {
                    let sender = if ps[i] is Some { p.name@ } else { Seq::<char>::empty() };
                    &&& post == pre
                    &&& acts.len() == 1
                    &&& sends_chat(acts[0], all_but(ps, i), sender, msg)
                },
                PlayerRequest::ImReady => {
                    let qs = ps.update(i, Some(Player { ready: true, ..p }));
                    &&& post.players@ == qs
                    &&& post.config == pre.config
                    &&& post.state.topic == pre.state.topic
                    &&& post.state.player_count == pre.state.player_count
                    &&& post.timepoint == pre.timepoint
                    &&& post.pending == pre.pending
                    &&& acts.len() >= 1
                    &&& sends_list(acts[0], everyone(qs), player_list(qs))
                    &&& if pre.state.player_count >= 2 && all_ready(qs) {
                        &&& post.state.stage == Stage::Ready
                        &&& acts.len() == 3
                        &&& sends(acts[1], everyone(qs), PlayerResponse::GameStart)
                        &&& feeds(acts[2], post)
                    } else {
                        &&& post.state.stage == pre.state.stage
                        &&& acts.len() == 1
                    }
                },
                PlayerRequest::ImUnready => {
                    let qs = ps.update(i, Some(Player { ready: false, ..p }));
                    &&& post.players@ == qs
                    &&& same_but_seats(pre, post)
                    &&& acts.len() == 1
                    &&& sends_list(acts[0], everyone(qs), player_list(qs))
                },
                PlayerRequest::Lexicon(words) => {
                    &&& post.config == (Config { lexicon: Lexicon::Upload(words), ..pre.config })
                    &&& post.state == pre.state
                    &&& post.players == pre.players
                    &&& post.timepoint == pre.timepoint
                    &&& post.pending == pre.pending
                    &&& acts.len() == 1
                    &&& sends_notice(acts[0], everyone(ps), p.name@ + " 上传了词库"@)
                },
                PlayerRequest::LexiconService(code) => {
                    &&& post.config == (Config { lexicon: Lexicon::Server(code), ..pre.config })
                    &&& post.state == pre.state
                    &&& post.players == pre.players
                    &&& post.timepoint == pre.timepoint
                    &&& post.pending == pre.pending
                    &&& acts.len() == 1
                    &&& sends_notice(acts[0], everyone(ps), p.name@ + " 添加了服务器词库"@)
                },
                _ => post == pre && acts.len() == 0,
            }
        },
        Request::PlayerLogin => login_step(pre, post, acts),
        Request::ObserverLogin { addr, name } => observer_login_step(pre, addr, name, post, acts),
        Request::PlayerLogout(idx) => logout_step(pre, idx, post, acts),
        Request::ObserverLogout(name) => post == pre && acts == seq![Action::RemoveObserver(name)],
        _ => post == pre && acts.len() == 0,
    }
}

/// What a request does to the seats `qs`, the head count `count` and the actions `acts`
/// while `d` draws, before the room looks whether the turn is over.
pub open spec fn drawing_event(
    pre: Room,
    d: int,
    req: Request,
    qs: Seq<Option<Player>>,
    count: u8,
    acts: Seq<Action>,
) -> bool {
    let ps = pre.players@;
    match req {
        Request::PlayerReq(idx, PlayerRequest::Chat { msg }) => {
            let i = idx as int;
            let p = ps[i]->0;
            if i == d {
                qs == ps && count == pre.state.player_count && acts.len() == 0
            } else if occurs_in(pre.state.topic@, msg@) {
                &&& qs == ps.update(i, qs[i])
                &&& qs[i] matches Some(q) && guessed(p, q, d, pre.timepoint)
                &&& count == pre.state.player_count
                &&& acts.len() == 2
                &&& sends_notice(acts[0], seat_of(ps, i), "正确答案！"@)
                &&& sends_notice(acts[1], all_but(ps, i), p.name@ + " 已经猜到了正确答案!"@)
            } else {
                &&& qs == ps
                &&& count == pre.state.player_count
                &&& acts.len() == 1
                &&& sends_chat(acts[0], all_but(ps, i), p.name@, msg)
            }
        },
        Request::PlayerReq(idx, PlayerRequest::Frame { bin }) => {
            &&& qs == ps
            &&& count == pre.state.player_count
            &&& if idx == d {
                acts.len() == 1 && sends(acts[0], all_but(ps, d), PlayerResponse::Frame { bin })
            } else {
                acts.len() == 0
            }
        },
        Request::CountDown(rest) => {
            &&& qs == ps
            &&& count == pre.state.player_count
            &&& acts.len() == 1
            &&& sends(acts[0], everyone(ps), PlayerResponse::CountDown(rest as u8))
        },
        Request::ObserverLogin { addr, name } => {
            &&& qs == ps
            &&& count == pre.state.player_count
            &&& acts.len() == 2
            &&& acts[0] matches Action::AddObserver(n) && n@ == observer_name(addr@, name@)
            &&& feeds(acts[1], pre)
        },
        Request::PlayerLogout(idx) => {
            &&& qs == ps.update(idx as int, None)
            &&& count == pre.state.player_count - 1
            &&& acts.len() == 3
            &&& feeds(acts[0], pre)
            &&& sends_list(acts[1], everyone(ps), player_list(ps))
            &&& acts[2] == Action::Detach(idx)
        },
        Request::ObserverLogout(name) => {
            &&& qs == ps
            &&& count == pre.state.player_count
            &&& acts == seq![Action::RemoveObserver(name)]
        },
        _ => qs == ps && count == pre.state.player_count && acts.len() == 0,
    }
}

/// The end of a turn: everybody hears that it is over, the guessers are asked to mark,
/// the drawing countdown stops and the marking countdown starts.
pub open spec fn turn_end(qs: Seq<Option<Player>>, d: int, acts: Seq<Action>) -> bool {
    &&& acts.len() == 5
    &&& sends(acts[0], everyone(qs), PlayerResponse::TurnEnd)
    &&& sends(acts[1], all_but(qs, d), PlayerResponse::Poll)
    &&& acts[2] == Action::StopTimer
    &&& acts[3] == Action::SetTimer(5, TimerType::Mark)
    &&& sends(acts[4], everyone(qs), PlayerResponse::MarkStart)
}

/// What a request does while the player in seat `d` draws: the request's own effect,
/// then the end of the turn once everybody else guessed or the time is up.
pub open spec fn drawing_step(pre: Room, d: usize, req: Request, post: Room, acts: Seq<Action>) -> bool {
    let done = all_right(post.players@, d as int) || req matches Request::Timer(TimerType::Draw);
    let k = if done { acts.len() - 5 } else { acts.len() as int };
    &&& 0 <= k
    &&& drawing_event(pre, d as int, req, post.players@, post.state.player_count, acts.take(k))
    &&& post.config == pre.config
    &&& post.state.topic == pre.state.topic
    &&& post.pending == pre.pending
    &&& if done {
        &&& post.state.stage == Stage::Marking(d)
        &&& post.timepoint == 0
        &&& turn_end(post.players@, d as int, acts.skip(k))
    } else {
        &&& post.state.stage == Stage::Drawing(d)
        &&& post.timepoint == (if req is CountDown { (pre.timepoint + 1) as u16 } else { pre.timepoint })
    }
}

/// What a request does while the guessers mark the drawing of seat `d`.
pub open spec fn marking_step(pre: Room, d: usize, req: Request, post: Room, acts: Seq<Action>) -> bool {
    let ps = pre.players@;
    match req {
        Request::PlayerReq(idx, PlayerRequest::Chat { msg }) => {
            &&& post == pre
            &&& acts.len() == 1
            &&& sends_chat(acts[0], all_but(ps, idx as int), ps[idx as int]->0.name@, msg)
        },
        Request::PlayerReq(idx, PlayerRequest::Mark { score }) => {
            &&& same_but_seats(pre, post)
            &&& acts.len() == 1
            &&& sends_notice(
                acts[0],
                everyone(ps),
                ps[idx as int]->0.name@ + " 对此的评价是 "@ + verdict(score),
            )
            &&& if ps[d as int] is Some {
                &&& post.players@ == ps.update(d as int, post.players@[d as int])
                &&& post.players@[d as int] matches Some(q) && marked(ps[d as int]->0, q, score)
            } else {
                post.players@ == ps
            }
        },
        Request::Timer(TimerType::Mark) => {
            &&& post.players == pre.players
            &&& post.config == pre.config
            &&& post.state.topic == pre.state.topic
            &&& post.state.player_count == pre.state.player_count
            &&& post.timepoint == pre.timepoint
            &&& acts.len() >= 1
            &&& sends(acts[0], everyone(ps), PlayerResponse::MarkEnd)
            &&& match post.pending {
                Some(n) => {
                    &&& is_next_drawer(ps, d + 1, n as int)
                    &&& post.state.stage == pre.state.stage
                    &&& acts.len() == 2
                    &&& sends(acts[1], everyone(ps), PlayerResponse::TurnStart(n as u8))
                },
                None => {
                    &&& none_ready_from(ps, d + 1)
                    &&& post.state.stage == Stage::Over
                    &&& acts.len() == 1
                },
            }
        },
        Request::CountDown(rest) => {
            &&& post == pre
            &&& acts.len() == 1
            &&& sends(acts[0], everyone(ps), PlayerResponse::CountDown(rest as u8))
        },
        Request::PlayerLogout(idx) => logout_step(pre, idx, post, acts),
        Request::ObserverLogout(name) => post == pre && acts == seq![Action::RemoveObserver(name)],
        _ => post == pre && acts.len() == 0,
    }
}

/// The game begins: the first seat with a ready player starts a turn, and the room waits
/// for its word; with nobody ready it goes back to waiting for players.
pub open spec fn ready_tick(pre: Room, post: Room, acts: Seq<Action>) -> bool {
    let ps = pre.players@;
    &&& post.players == pre.players
    &&& post.config == pre.config
    &&& post.state.topic == pre.state.topic
    &&& post.state.player_count == pre.state.player_count
    &&& match post.pending {
        Some(f) => {
            &&& is_next_drawer(ps, 0, f as int)
            &&& post.state.stage == Stage::Ready
            &&& post.timepoint == 0
            &&& acts.len() == 1
            &&& sends(acts[0], everyone(ps), PlayerResponse::TurnStart(f as u8))
        },
        None => {
            &&& none_ready_from(ps, 0)
            &&& post.state.stage == Stage::Unready
            &&& post.timepoint == pre.timepoint
            &&& acts.len() == 0
        },
    }
}

/// The game is over: everybody hears it, every record is cleared, and the room waits for
/// players again.
pub open spec fn over_tick(pre: Room, post: Room, acts: Seq<Action>) -> bool {
    let ps = pre.players@;
    let qs = post.players@;
    &&& qs.len() == ROOM_SIZE
    &&& forall|i: int| 0 <= i < ROOM_SIZE ==> (#[trigger] qs[i] is Some <==> ps[i] is Some)
    &&& forall|i: int| 0 <= i < ROOM_SIZE && #[trigger] qs[i] is Some ==> {
        &&& qs[i]->0.is_fresh()
        &&& qs[i]->0.name == ps[i]->0.name
    }
    &&& post.config == pre.config
    &&& post.state.topic == pre.state.topic
    &&& post.state.player_count == pre.state.player_count
    &&& post.state.stage == Stage::Unready
    &&& post.timepoint == pre.timepoint
    &&& post.pending == pre.pending
    &&& acts.len() == 4
    &&& sends_notice(acts[0], everyone(ps), "本轮结束"@)
    &&& sends(acts[1], everyone(ps), PlayerResponse::GameEnd)
    &&& sends_list(acts[2], everyone(qs), player_list(qs))
    &&& feeds(acts[3], post)
}

/// The waiting drawer's turn starts with `word` (none gives the empty word): the drawer
/// is told the word and the drawing countdown starts.
pub open spec fn word_step(pre: Room, word: Option<String>, post: Room, acts: Seq<Action>) -> bool {
    let n = pre.pending->0;
    &&& post.players == pre.players
    &&& post.config == pre.config
    &&& post.state.player_count == pre.state.player_count
    &&& post.state.stage == Stage::Drawing(n)
    &&& post.timepoint == pre.timepoint
    &&& post.pending is None
    &&& match word {
        Some(w) => post.state.topic == w,
        None => post.state.topic@ == Seq::<char>::empty(),
    }
    &&& acts.len() == 2
    &&& sends(acts[0], seat_of(pre.players@, n as int), PlayerResponse::Topic { topic_word: post.state.topic })
    &&& acts[1] == Action::SetTimer(60, TimerType::Draw)
}

/// What the room does with `input`.
pub open spec fn step_spec(pre: Room, input: Input, post: Room, acts: Seq<Action>) -> bool {
    match input {
        Input::Word(w) => word_step(pre, w, post, acts),
        Input::Tick => if pre.state.stage is Ready {
            ready_tick(pre, post, acts)
        } else {
            over_tick(pre, post, acts)
        },
        Input::Request(req) => match pre.state.stage {
            Stage::Unready => unready_step(pre, req, post, acts),
            Stage::Drawing(d) => drawing_step(pre, d, req, post, acts),
            Stage::Marking(d) => marking_step(pre, d, req, post, acts),
            _ => false,
        },
    }
}

impl Room {
    /// Seat `idx` exists and is occupied.
    pub open spec fn seat_taken(&self, idx: usize) -> bool {
        idx < ROOM_SIZE && self.players@[idx as int] is Some
    }

    /// The player in seat `idx` can leave: the seat exists and somebody is counted.
    pub open spec fn can_leave(&self, idx: usize) -> bool {
        idx < ROOM_SIZE && self.state.player_count > 0
    }

    /// The requests the room can take while waiting for everybody to be ready.
    pub open spec fn unready_admits(&self, req: Request) -> bool {
        match req {
            Request::PlayerReq(idx, r) => match r {
                PlayerRequest::Frame { .. } => true,
                PlayerRequest::Mark { .. } => true,
                PlayerRequest::Chat { .. } => idx < ROOM_SIZE,
                _ => self.seat_taken(idx),
            },
            Request::PlayerLogout(idx) => self.can_leave(idx),
            _ => true,
        }
    }

    /// The requests the room can take while `d` draws.
    pub open spec fn drawing_admits(&self, d: usize, req: Request) -> bool {
        match req {
            Request::PlayerReq(idx, PlayerRequest::Chat { msg }) => idx != d ==> {
                &&& self.seat_taken(idx)
                &&& occurs_in(self.state.topic@, msg@) ==> {
                    let p = self.players@[idx as int]->0;
                    &&& p.timepoint + self.timepoint <= u16::MAX
                    &&& p.drawpoint < u8::MAX
                }
            },
            Request::CountDown(_) => self.timepoint < u16::MAX,
            Request::PlayerLogout(idx) => self.can_leave(idx),
            _ => true,
        }
    }

    /// The requests the room can take while the drawing of `d` is marked.
    pub open spec fn marking_admits(&self, d: usize, req: Request) -> bool {
        match req {
            Request::PlayerReq(idx, PlayerRequest::Chat { .. }) => self.seat_taken(idx),
            Request::PlayerReq(idx, PlayerRequest::Mark { score }) => {
                &&& self.seat_taken(idx)
                &&& self.players@[d as int] matches Some(q) ==> q.score@[mark_slot(score)] < u8::MAX
            },
            Request::PlayerLogout(idx) => self.can_leave(idx),
            _ => true,
        }
    }

    /// The inputs the room can take where it is: a request while it waits for one (and
    /// the request is one it can take), a tick between turns, a word for a waiting drawer.
    pub open spec fn admits(&self, input: Input) -> bool {
        match input {
            Input::Word(_) => self.pending is Some,
            Input::Tick => self.pending is None && (self.state.stage is Ready || self.state.stage is Over),
            Input::Request(req) => self.pending is None && match self.state.stage {
                Stage::Unready => self.unready_admits(req),
                Stage::Drawing(d) => self.drawing_admits(d, req),
                Stage::Marking(d) => self.marking_admits(d, req),
                _ => false,
            },
        }
    }

    pub(crate) fn unready_accepts(&self, req: &Request) -> (b: bool)
        requires
            self.wf(),
        ensures
            b == self.unready_admits(*req),
    {
        match req {
            Request::PlayerReq(idx, r) => match r {
                PlayerRequest::Frame { .. } => true,
                PlayerRequest::Mark { .. } => true,
                PlayerRequest::Chat { .. } => *idx < ROOM_SIZE,
                _ => *idx < ROOM_SIZE && self.players[*idx].is_some(),
            },
            Request::PlayerLogout(idx) => *idx < ROOM_SIZE && self.state.player_count > 0,
            _ => true,
        }
    }

    pub(crate) fn drawing_accepts(&self, d: usize, req: &Request) -> (b: bool)
        requires
            self.wf(),
        ensures
            b == self.drawing_admits(d, *req),
    {
        match req {
            Request::PlayerReq(idx, PlayerRequest::Chat { msg }) => {
                if *idx == d {
                    return true;
                }
                if *idx >= ROOM_SIZE {
                    return false;
                }
                match &self.players[*idx] {
                    None => false,
                    Some(p) => {
                        if self.check_answer(msg) {
                            p.timepoint as u32 + self.timepoint as u32 <= u16::MAX as u32 && p.drawpoint < u8::MAX
                        } else {
                            true
                        }
                    },
                }
            },
            Request::CountDown(_) => self.timepoint < u16::MAX,
            Request::PlayerLogout(idx) => *idx < ROOM_SIZE && self.state.player_count > 0,
            _ => true,
        }
    }

    pub(crate) fn marking_accepts(&self, d: usize, req: &Request) -> (b: bool)
        requires
            self.wf(),
            d < ROOM_SIZE,
        ensures
            b == self.marking_admits(d, *req),
    {
        match req {
            Request::PlayerReq(idx, PlayerRequest::Chat { .. }) => *idx < ROOM_SIZE && self.players[*idx].is_some(),
            Request::PlayerReq(idx, PlayerRequest::Mark { score }) => {
                if *idx >= ROOM_SIZE || self.players[*idx].is_none() {
                    return false;
                }
                match &self.players[d] {
                    Some(q) => {
                        let slot: usize = match *score {
                            -1 => 0,
                            1 => 2,
                            _ => 1,
                        };
                        q.score[slot] < u8::MAX
                    },
                    None => true,
                }
            },
            Request::PlayerLogout(idx) => *idx < ROOM_SIZE && self.state.player_count > 0,
            _ => true,
        }
    }

    /// Hands the room one input and returns what it did in answer, in order.
    pub fn step(&mut self, input: Input) -> (acts: Vec<Action>)
        requires
            old(self).wf(),
            old(self).admits(input),
        ensures
            final(self).wf(),
            step_spec(*old(self), input, *final(self), acts@),
    {
        match input {
            Input::Word(w) => self.start_turn(w),
            Input::Tick => match self.state.stage {
                Stage::Ready => self.tick_ready(),
                _ => self.tick_over(),
            },
            Input::Request(req) => match self.state.stage {
                Stage::Unready => self.handle_unready(req),
                Stage::Drawing(d) => self.handle_drawing(d, req),
                Stage::Marking(d) => self.handle_marking(d, req),
                _ => Vec::new(),
            },
        }
    }
}

} // verus!
