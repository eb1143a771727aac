//! The room's handlers, one for each phase, each proved against its rule in `step`.
use vstd::prelude::*;

use crate::consts::ROOM_SIZE;
use crate::protocol::{PlayerRequest, PlayerResponse};
use super::config::Lexicon;
use super::error::ErrorKind;
use super::request::{Request, TimerType};
use super::state::Stage;
use super::step::{
    drawing_event, drawing_step, login_step, logout_step, marking_step, observer_login_step, observer_name, over_tick,
    ready_tick, unready_step, verdict, word_step,
};
use super::laws::lemma_same_seats_same_count;
use super::{full, lemma_occupied_update, Action, Room};

verus! {

/// The local name of an observer from `addr` calling itself `name`: `addr[name]`.
pub fn observer_localname(addr: &String, name: &String) -> (n: String)
    ensures
        n@ == observer_name(addr@, name@),
{
    addr.clone().concat("[").concat(name.as_str()).concat("]")
}

/// The words with which a mark is announced.
pub fn verdict_text(score: i8) -> (t: String)
    ensures
        t@ == verdict(score),
{
    match score {
        -1 => String::from_str("差评如潮"),
        0 => String::from_str("褒贬不一"),
        _ => String::from_str("好评如潮"),
    }
}

impl Room {
    /// A newcomer takes the first free seat; the connection is attached to it, everybody
    /// seated gets the new player list and the observers the new room state. With every
    /// seat taken nothing changes and the answer is `RoomFullfilled`.
    pub fn login_player(&mut self) -> (r: Result<Vec<Action>, ErrorKind>)
        requires
            old(self).wf(),
        ensures
            final(self).wf(),
            r matches Ok(acts) ==> !full(old(self).players@) && login_step(*old(self), *final(self), acts@),
            r matches Err(e) ==> e == ErrorKind::RoomFullfilled && full(old(self).players@)
                && *final(self) == *old(self),
    {
        match self.seat_newcomer() {
            Ok(i) => {
                let mut acts: Vec<Action> = Vec::new();
                acts.push(Action::Attach(i));
                acts.push(self.broadcast(PlayerResponse::PlayerStates(self.player_states())));
                acts.push(self.feed(self.get_room_states()));
                Ok(acts)
            },
            Err(e) => Err(e),
        }
    }

    /// The player in seat `idx` leaves: observers and players hear of the room as it was,
    /// then the seat is freed, the count drops by one and the connection is closed.
    pub fn logout(&mut self, idx: usize) -> (acts: Vec<Action>)
        requires
            old(self).wf(),
            old(self).can_leave(idx),
        ensures
            final(self).wf(),
            logout_step(*old(self), idx, *final(self), acts@),
    {
        let mut acts: Vec<Action> = Vec::new();
        acts.push(self.feed(self.get_room_states()));
        acts.push(self.broadcast(PlayerResponse::PlayerStates(self.player_states())));
        self.free_seat(idx);
        acts.push(Action::Detach(idx));
        acts
    }

    /// An observer arrives.
    fn welcome_observer(&mut self, addr: String, name: String) -> (acts: Vec<Action>)
        ensures
            observer_login_step(*old(self), addr, name, *final(self), acts@),
    {
        let mut acts: Vec<Action> = Vec::new();
        acts.push(Action::AddObserver(observer_localname(&addr, &name)));
        acts.push(self.feed(self.get_room_states()));
        acts
    }

    pub(crate) fn handle_unready(&mut self, req: Request) -> (acts: Vec<Action>)
        requires
            old(self).wf(),
            old(self).state.stage == Stage::Unready,
            old(self).pending is None,
            old(self).unready_admits(req),
        ensures
            final(self).wf(),
            unready_step(*old(self), req, *final(self), acts@),
    {
        let mut acts: Vec<Action> = Vec::new();
        let ghost ps = self.players@;
        match req {
            Request::PlayerReq(idx, r) => match r {
                PlayerRequest::SetName { name } => {
                    if let Some(p) = &mut self.players[idx] {
                        p.set_name(name);
                    }
                    proof { lemma_occupied_update(ps, idx as int, self.players@[idx as int], ROOM_SIZE as int); }
                    acts.push(self.broadcast(PlayerResponse::PlayerStates(self.player_states())));
                },
                PlayerRequest::Chat { msg } => {
                    let sender_name = match &self.players[idx] {
                        Some(p) => p.get_name(),
                        None => String::new(),
                    };
                    acts.push(self.broadcast_except(PlayerResponse::Chat { sender: sender_name, msg }, idx));
                },
                PlayerRequest::ImReady => {
                    if let Some(p) = &mut self.players[idx] {
                        p.ready();
                    }
                    proof { lemma_occupied_update(ps, idx as int, self.players@[idx as int], ROOM_SIZE as int); }
                    acts.push(self.broadcast(PlayerResponse::PlayerStates(self.player_states())));
                    if self.every_one_ready() {
                        self.state.stage = Stage::Ready;
                        acts.push(self.broadcast(PlayerResponse::GameStart));
                        acts.push(self.feed(self.get_room_states()));
                    }
                },
                PlayerRequest::ImUnready => {
                    if let Some(p) = &mut self.players[idx] {
                        p.unready();
                    }
                    proof { lemma_occupied_update(ps, idx as int, self.players@[idx as int], ROOM_SIZE as int); }
                    acts.push(self.broadcast(PlayerResponse::PlayerStates(self.player_states())));
                },
                PlayerRequest::Lexicon(words) => {
                    self.config.lexicon = Lexicon::Upload(words);
                    let msg = self.get_name(idx).concat(" 上传了词库");
                    acts.push(self.broadcast(PlayerResponse::Notice { msg }));
                },
                PlayerRequest::LexiconService(code) => {
                    self.config.lexicon = Lexicon::Server(code);
                    let msg = self.get_name(idx).concat(" 添加了服务器词库");
                    acts.push(self.broadcast(PlayerResponse::Notice { msg }));
                },
                _ => {},
            },
            Request::PlayerLogin => {
                match self.login_player() {
                    Ok(a) => {
                        acts = a;
                    },
                    Err(_) => {},
                }
            },
            Request::ObserverLogin { addr, name } => {
                acts = self.welcome_observer(addr, name);
            },
            Request::PlayerLogout(idx) => {
                acts = self.logout(idx);
            },
            Request::ObserverLogout(name) => {
                acts.push(Action::RemoveObserver(name));
            },
            _ => {},
        }
        acts
    }

    /// The request's own effect while `d` draws.
    fn drawing_request(&mut self, d: usize, req: Request) -> (acts: Vec<Action>)
        requires
            old(self).wf(),
            old(self).state.stage == Stage::Drawing(d),
            old(self).pending is None,
            old(self).drawing_admits(d, req),
        ensures
            final(self).wf(),
            drawing_event(
                *old(self),
                d as int,
                req,
                final(self).players@,
                final(self).state.player_count,
                acts@,
            ),
            final(self).config == old(self).config,
            final(self).state.topic == old(self).state.topic,
            final(self).state.stage == old(self).state.stage,
            final(self).pending == old(self).pending,
            final(self).timepoint == (if req is CountDown { (old(self).timepoint + 1) as u16 } else {
                old(self).timepoint
            }),
    {
        let mut acts: Vec<Action> = Vec::new();
        let ghost ps = self.players@;
        match req {
            Request::PlayerReq(idx, PlayerRequest::Chat { msg }) => {
                if idx != d {
                    let sender_name = self.get_name(idx);
                    if self.check_answer(&msg) {
                        let elapsed = self.timepoint;
                        if let Some(player) = &mut self.players[idx] {
                            player.set_right(d);
                            player.timepoint = player.timepoint + elapsed;
                            player.add_draw_point();
                        }
                        proof {
                            lemma_occupied_update(ps, idx as int, self.players@[idx as int], ROOM_SIZE as int);
                            lemma_same_seats_same_count(ps, self.players@);
                        }
                        acts.push(self.send(idx, PlayerResponse::Notice { msg: String::from_str("正确答案！") }));
                        let note = sender_name.concat(" 已经猜到了正确答案!");
                        acts.push(self.broadcast_except(PlayerResponse::Notice { msg: note }, idx));
                    } else {
                        acts.push(self.broadcast_except(PlayerResponse::Chat { sender: sender_name, msg }, idx));
                    }
                }
            },
            Request::PlayerReq(idx, PlayerRequest::Frame { bin }) => {
                if d == idx {
                    acts.push(self.broadcast_except(PlayerResponse::Frame { bin }, idx));
                }
            },
            Request::CountDown(rest) => {
                acts.push(self.broadcast(PlayerResponse::CountDown(rest as u8)));
                self.timepoint = self.timepoint + 1;
            },
            Request::ObserverLogin { addr, name } => {
                acts = self.welcome_observer(addr, name);
            },
            Request::PlayerLogout(idx) => {
                acts = self.logout(idx);
            },
            Request::ObserverLogout(name) => {
                acts.push(Action::RemoveObserver(name));
            },
            _ => {},
        }
        acts
    }

    pub(crate) fn handle_drawing(&mut self, d: usize, req: Request) -> (acts: Vec<Action>)
        requires
            old(self).wf(),
            old(self).state.stage == Stage::Drawing(d),
            old(self).pending is None,
            old(self).drawing_admits(d, req),
        ensures
            final(self).wf(),
            drawing_step(*old(self), d, req, *final(self), acts@),
    {
        let timesup = match &req {
            Request::Timer(TimerType::Draw) => true,
            _ => false,
        };
        let mut acts = self.drawing_request(d, req);
        let ghost head = acts@;
        if self.every_one_right(d) || timesup {
            acts.push(self.broadcast(PlayerResponse::TurnEnd));
            acts.push(self.broadcast_except(PlayerResponse::Poll, d));
            acts.push(Action::StopTimer);
            acts.push(Action::SetTimer(5, TimerType::Mark));
            self.timepoint = 0;
            self.state.stage = Stage::Marking(d);
            acts.push(self.broadcast(PlayerResponse::MarkStart));
            assert(acts@.take(head.len() as int) =~= head);
        } else {
            assert(acts@.take(head.len() as int) =~= head);
        }
        acts
    }

    pub(crate) fn handle_marking(&mut self, d: usize, req: Request) -> (acts: Vec<Action>)
        requires
            old(self).wf(),
            old(self).state.stage == Stage::Marking(d),
            old(self).pending is None,
            old(self).marking_admits(d, req),
        ensures
            final(self).wf(),
            marking_step(*old(self), d, req, *final(self), acts@),
    {
        let mut acts: Vec<Action> = Vec::new();
        let ghost ps = self.players@;
        match req {
            Request::PlayerReq(idx, PlayerRequest::Chat { msg }) => {
                let sender_name = self.get_name(idx);
                acts.push(self.broadcast_except(PlayerResponse::Chat { sender: sender_name, msg }, idx));
            },
            Request::PlayerReq(idx, PlayerRequest::Mark { score }) => {
                let msg = self.get_name(idx).concat(" 对此的评价是 ").concat(verdict_text(score).as_str());
                acts.push(self.broadcast(PlayerResponse::Notice { msg }));
                if let Some(player) = &mut self.players[d] {
                    player.mark(score);
                }
                proof {
                    lemma_occupied_update(ps, d as int, self.players@[d as int], ROOM_SIZE as int);
                    if ps[d as int] is None {
                        assert(self.players@ =~= ps);
                    }
                }
            },
            Request::Timer(TimerType::Mark) => {
                acts.push(self.broadcast(PlayerResponse::MarkEnd));
                match self.get_next_drawer(Some(d)) {
                    Some(next) => {
                        acts.push(self.broadcast(PlayerResponse::TurnStart(next as u8)));
                        self.pending = Some(next);
                    },
                    None => {
                        self.state.stage = Stage::Over;
                    },
                }
            },
            Request::CountDown(rest) => {
                acts.push(self.broadcast(PlayerResponse::CountDown(rest as u8)));
            },
            Request::PlayerLogout(idx) => {
                acts = self.logout(idx);
            },
            Request::ObserverLogout(name) => {
                acts.push(Action::RemoveObserver(name));
            },
            _ => {},
        }
        acts
    }

    pub(crate) fn tick_ready(&mut self) -> (acts: Vec<Action>)
        requires
            old(self).wf(),
            old(self).state.stage == Stage::Ready,
            old(self).pending is None,
        ensures
            final(self).wf(),
            ready_tick(*old(self), *final(self), acts@),
    {
        let mut acts: Vec<Action> = Vec::new();
        match self.get_next_drawer(None) {
            Some(first) => {
                acts.push(self.broadcast(PlayerResponse::TurnStart(first as u8)));
                self.pending = Some(first);
                self.timepoint = 0;
            },
            None => {
                self.state.stage = Stage::Unready;
            },
        }
        acts
    }

    pub(crate) fn tick_over(&mut self) -> (acts: Vec<Action>)
        requires
            old(self).wf(),
            old(self).state.stage == Stage::Over,
            old(self).pending is None,
        ensures
            final(self).wf(),
            over_tick(*old(self), *final(self), acts@),
    {
        let mut acts: Vec<Action> = Vec::new();
        acts.push(self.broadcast(PlayerResponse::Notice { msg: String::from_str("本轮结束") }));
        acts.push(self.broadcast(PlayerResponse::GameEnd));
        let ghost ps = self.players@;
        self.reset_all();
        proof { super::laws::lemma_same_seats_same_count(ps, self.players@); }
        acts.push(self.broadcast(PlayerResponse::PlayerStates(self.player_states())));
        self.state.stage = Stage::Unready;
        acts.push(self.feed(self.get_room_states()));
        acts
    }

    pub(crate) fn start_turn(&mut self, word: Option<String>) -> (acts: Vec<Action>)
        requires
            old(self).wf(),
            old(self).pending is Some,
        ensures
            final(self).wf(),
            word_step(*old(self), word, *final(self), acts@),
    {
        let next = match self.pending {
            Some(n) => n,
            None => 0,
        };
        self.state.topic = match word {
            Some(w) => w,
            None => String::new(),
        };
        let mut acts: Vec<Action> = Vec::new();
        acts.push(self.send(next, PlayerResponse::Topic { topic_word: self.state.topic.clone() }));
        acts.push(Action::SetTimer(60, TimerType::Draw));
        self.state.stage = Stage::Drawing(next);
        self.pending = None;
        acts
    }
}

} // verus!
