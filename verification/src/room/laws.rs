//! What holds of the room across requests: the properties that every step keeps and
//! the promises of the game as a whole.
use vstd::prelude::*;

use crate::consts::ROOM_SIZE;
use crate::player::Player;
use crate::protocol::{ObserverResponse, PlayerRequest, PlayerResponse, PlayerState};
use crate::text::occurs_in;
use super::request::Request;
use super::state::Stage;
use super::request::TimerType;
use super::step::{drawing_step, step_spec};
use super::{feeds, stage_text, states_upto, all_but, all_right, all_ready, full, lemma_occupied_update, occupied, ready_at, seated, Action, Input, Room};

verus! {

/// Seats that are occupied in the same places count the same and are addressed the same.
pub proof fn lemma_same_seats_same_count(ps: Seq<Option<Player>>, qs: Seq<Option<Player>>)
    requires
        ps.len() == ROOM_SIZE,
        qs.len() == ROOM_SIZE,
        forall|i: int| 0 <= i < ROOM_SIZE ==> (#[trigger] qs[i] is Some <==> ps[i] is Some),
    ensures
        occupied(qs, ROOM_SIZE as int) == occupied(ps, ROOM_SIZE as int),
        forall|e: int| seated(qs, e, ROOM_SIZE as int) == #[trigger] seated(ps, e, ROOM_SIZE as int),
{
    lemma_same_seats_upto(ps, qs, ROOM_SIZE as int);
    assert forall|e: int| seated(qs, e, ROOM_SIZE as int) == #[trigger] seated(ps, e, ROOM_SIZE as int) by {
        lemma_same_seats_seated(ps, qs, e, ROOM_SIZE as int);
    }
}

proof fn lemma_same_seats_upto(ps: Seq<Option<Player>>, qs: Seq<Option<Player>>, n: int)
    requires
        n <= ROOM_SIZE,
        ps.len() == ROOM_SIZE,
        qs.len() == ROOM_SIZE,
        forall|i: int| 0 <= i < ROOM_SIZE ==> (#[trigger] qs[i] is Some <==> ps[i] is Some),
    ensures
        occupied(qs, n) == occupied(ps, n),
    decreases n,
{
    if n > 0 {
        lemma_same_seats_upto(ps, qs, n - 1);
    }
}

proof fn lemma_same_seats_seated(ps: Seq<Option<Player>>, qs: Seq<Option<Player>>, e: int, n: int)
    requires
        n <= ROOM_SIZE,
        ps.len() == ROOM_SIZE,
        qs.len() == ROOM_SIZE,
        forall|i: int| 0 <= i < ROOM_SIZE ==> (#[trigger] qs[i] is Some <==> ps[i] is Some),
    ensures
        seated(qs, e, n) == seated(ps, e, n),
    decreases n,
{
    if n > 0 {
        lemma_same_seats_seated(ps, qs, e, n - 1);
    }
}

/// The room counts exactly the players seated, after any input but a leave from a seat
/// that is already empty (the one input that makes the count drift).
pub proof fn law_count_is_head_count(pre: Room, input: Input, post: Room, acts: Seq<Action>)
    requires
        pre.wf(),
        pre.admits(input),
        step_spec(pre, input, post, acts),
        pre.counted(),
        !(input matches Input::Request(Request::PlayerLogout(i)) && pre.players@[i as int] is None),
    ensures
        post.counted(),
{
    let ps = pre.players@;
    let n = ROOM_SIZE as int;
    match input {
        Input::Word(_) => {},
        Input::Tick => {
            if !(pre.state.stage is Ready) {
                lemma_same_seats_same_count(ps, post.players@);
            }
        },
        Input::Request(req) => {
            match req {
                Request::PlayerReq(idx, _) => {
                    if idx < ROOM_SIZE {
                        lemma_occupied_update(ps, idx as int, post.players@[idx as int], n);
                    }
                    match pre.state.stage {
                        Stage::Marking(d) => {
                            lemma_occupied_update(ps, d as int, post.players@[d as int], n);
                        },
                        _ => {},
                    }
                },
                Request::PlayerLogin => {
                    if pre.state.stage is Unready && !full(ps) {
                        let i = acts[0]->Attach_0;
                        lemma_occupied_update(ps, i as int, post.players@[i as int], n);
                    }
                },
                Request::PlayerLogout(idx) => {
                    lemma_occupied_update(ps, idx as int, None, n);
                },
                _ => {},
            }
        },
    }
}

/// A game starts only when at least two players are counted and every seated player is
/// ready, and only from the waiting phase.
pub proof fn law_game_starts_when_all_ready(pre: Room, input: Input, post: Room, acts: Seq<Action>)
    requires
        pre.wf(),
        pre.admits(input),
        step_spec(pre, input, post, acts),
        !(pre.state.stage is Ready),
        post.state.stage is Ready,
    ensures
        pre.state.stage is Unready,
        input matches Input::Request(Request::PlayerReq(_, PlayerRequest::ImReady)),
        post.state.player_count >= 2,
        all_ready(post.players@),
        forall|i: int| 0 <= i < ROOM_SIZE && #[trigger] post.players@[i] is Some ==> post.players@[i]->0.ready,
{
}

/// A waiting room whose last player declares ready starts the game: once at least two
/// are counted and every occupied seat holds a ready player, the room is ready.
pub proof fn law_all_ready_starts_the_game(pre: Room, idx: usize, post: Room, acts: Seq<Action>)
    requires
        pre.wf(),
        pre.state.stage is Unready,
        pre.admits(Input::Request(Request::PlayerReq(idx, PlayerRequest::ImReady))),
        step_spec(pre, Input::Request(Request::PlayerReq(idx, PlayerRequest::ImReady)), post, acts),
        pre.state.player_count >= 2,
        forall|i: int| 0 <= i < ROOM_SIZE && i != idx && #[trigger] pre.players@[i] is Some ==> pre.players@[i]->0.ready,
    ensures
        post.state.stage is Ready,
        post.players@[idx as int] matches Some(p) && p.ready,
{
}

/// A seat whose player is not ready keeps a waiting room waiting, whoever declares ready.
pub proof fn law_unready_seat_blocks_the_start(pre: Room, input: Input, post: Room, acts: Seq<Action>, i: int)
    requires
        pre.wf(),
        pre.state.stage is Unready,
        pre.admits(input),
        step_spec(pre, input, post, acts),
        0 <= i < ROOM_SIZE,
        post.players@[i] matches Some(p) && !p.ready,
    ensures
        post.state.stage is Unready,
{
}

/// Turns go round the table: the drawer after seat `d` sits in a later seat and is ready,
/// so a game has at most one turn per seat.
pub proof fn law_turns_go_forward(pre: Room, input: Input, post: Room, acts: Seq<Action>)
    requires
        pre.wf(),
        pre.admits(input),
        step_spec(pre, input, post, acts),
        pre.state.stage matches Stage::Marking(d),
        post.pending matches Some(n),
    ensures
        pre.state.stage->Marking_0 < post.pending->0,
        ready_at(pre.players@, post.pending->0 as int),
{
}

/// While a word is being drawn, no chat line that holds the word reaches anybody, and
/// the drawer's own chat reaches nobody.
pub proof fn law_word_stays_secret(pre: Room, idx: usize, msg: String, post: Room, acts: Seq<Action>)
    requires
        pre.wf(),
        pre.admits(Input::Request(Request::PlayerReq(idx, PlayerRequest::Chat { msg }))),
        step_spec(pre, Input::Request(Request::PlayerReq(idx, PlayerRequest::Chat { msg })), post, acts),
        pre.state.stage matches Stage::Drawing(d),
        occurs_in(pre.state.topic@, msg@) || idx == pre.state.stage->Drawing_0,
    ensures
        forall|k: int| 0 <= k < acts.len() ==> !(#[trigger] acts[k] matches Action::Send(_, PlayerResponse::Chat { .. })),
{
}

/// Only the drawer's strokes are passed on, and to everybody seated but the drawer.
pub proof fn law_only_drawer_draws(pre: Room, idx: usize, bin: Vec<u8>, post: Room, acts: Seq<Action>)
    requires
        pre.wf(),
        pre.admits(Input::Request(Request::PlayerReq(idx, PlayerRequest::Frame { bin }))),
        step_spec(pre, Input::Request(Request::PlayerReq(idx, PlayerRequest::Frame { bin })), post, acts),
        pre.state.stage matches Stage::Drawing(d),
    ensures
        forall|k: int| 0 <= k < acts.len() && (#[trigger] acts[k] matches Action::Send(to, PlayerResponse::Frame { .. }))
            ==> idx == pre.state.stage->Drawing_0 && acts[k]->Send_0@ == all_but(pre.players@, idx as int),
{
}

/// Every seat that the action addresses exists and holds a player in `ps` or in `qs`.
pub open spec fn to_seated(a: Action, ps: Seq<Option<Player>>, qs: Seq<Option<Player>>) -> bool {
    a matches Action::Send(to, _) ==> forall|j: int|
        0 <= j < to@.len() ==> {
            &&& 0 <= #[trigger] to@[j] < ROOM_SIZE
            &&& (ps[to@[j] as int] is Some || qs[to@[j] as int] is Some)
        }
}

/// The seats listed by `seated` are occupied seats below `n`.
pub proof fn lemma_seated_members(ps: Seq<Option<Player>>, e: int, n: int)
    requires
        n <= ROOM_SIZE,
    ensures
        forall|j: int| 0 <= j < seated(ps, e, n).len() ==> {
            &&& 0 <= #[trigger] seated(ps, e, n)[j] < n
            &&& seated(ps, e, n)[j] != e
            &&& ps[seated(ps, e, n)[j] as int] is Some
        },
    decreases n,
{
    if n > 0 {
        lemma_seated_members(ps, e, n - 1);
        let prev = seated(ps, e, n - 1);
        if ps[n - 1] is Some && n - 1 != e {
            assert forall|j: int| 0 <= j < seated(ps, e, n).len() implies {
                &&& 0 <= #[trigger] seated(ps, e, n)[j] < n
                &&& seated(ps, e, n)[j] != e
                &&& ps[seated(ps, e, n)[j] as int] is Some
            } by {
                if j < prev.len() {
                    assert(seated(ps, e, n)[j] == prev[j]);
                } else {
                    assert(seated(ps, e, n)[j] == n - 1);
                }
            }
        }
    }
}

/// The room only ever addresses seats that hold a player, before or after the step:
/// nothing is sent to an empty seat.
pub proof fn law_only_seated_players_are_addressed(pre: Room, input: Input, post: Room, acts: Seq<Action>)
    requires
        pre.wf(),
        pre.admits(input),
        step_spec(pre, input, post, acts),
    ensures
        forall|k: int| 0 <= k < acts.len() ==> to_seated(#[trigger] acts[k], pre.players@, post.players@),
{
    let ps = pre.players@;
    let qs = post.players@;
    let n = ROOM_SIZE as int;
    lemma_seated_members(ps, -1, n);
    lemma_seated_members(qs, -1, n);
    match pre.state.stage {
        Stage::Drawing(d) => {
            lemma_seated_members(ps, d as int, n);
            lemma_seated_members(qs, d as int, n);
        },
        Stage::Marking(d) => {
            lemma_seated_members(ps, d as int, n);
        },
        _ => {},
    }
    match input {
        Input::Request(Request::PlayerReq(idx, _)) => {
            lemma_seated_members(ps, idx as int, n);
        },
        _ => {},
    }
    match (pre.state.stage, input) {
        (Stage::Drawing(d), Input::Request(req)) => {
            lemma_drawing_to_seated(pre, d, req, post, acts);
        },
        _ => {},
    }
}

/// While seat `d` draws, every seat the step addresses holds a player before or after it.
#[verifier::spinoff_prover]
proof fn lemma_drawing_to_seated(pre: Room, d: usize, req: Request, post: Room, acts: Seq<Action>)
    requires
        pre.wf(),
        d < ROOM_SIZE,
        drawing_step(pre, d, req, post, acts),
    ensures
        forall|k: int| 0 <= k < acts.len() ==> to_seated(#[trigger] acts[k], pre.players@, post.players@),
{
    let ps = pre.players@;
    let qs = post.players@;
    let n = ROOM_SIZE as int;
    lemma_seated_members(ps, -1, n);
    lemma_seated_members(qs, -1, n);
    lemma_seated_members(ps, d as int, n);
    lemma_seated_members(qs, d as int, n);
    match req {
        Request::PlayerReq(idx, _) => {
            lemma_seated_members(ps, idx as int, n);
        },
        _ => {},
    }
    let done = all_right(qs, d as int) || req matches Request::Timer(TimerType::Draw);
    let kk = if done { acts.len() - 5 } else { acts.len() as int };
    let head = acts.take(kk);
    let tail = acts.skip(kk);
    assert forall|k: int| 0 <= k < head.len() implies to_seated(#[trigger] head[k], ps, qs) by {}
    assert forall|k: int| 0 <= k < tail.len() implies to_seated(#[trigger] tail[k], ps, qs) by {}
    assert forall|k: int| 0 <= k < acts.len() implies to_seated(#[trigger] acts[k], ps, qs) by {
        if k < kk {
            assert(acts[k] == head[k]);
        } else {
            assert(acts[k] == tail[k - kk]);
        }
    }
}

/// Taking readiness back undoes it: a waiting player who declares ready and then unready,
/// without the game starting in between, leaves the room as it was.
pub proof fn law_unready_undoes_ready(
    pre: Room,
    idx: usize,
    mid: Room,
    first: Seq<Action>,
    post: Room,
    second: Seq<Action>,
)
    requires
        pre.wf(),
        pre.state.stage is Unready,
        pre.admits(Input::Request(Request::PlayerReq(idx, PlayerRequest::ImReady))),
        !pre.players@[idx as int]->0.ready,
        step_spec(pre, Input::Request(Request::PlayerReq(idx, PlayerRequest::ImReady)), mid, first),
        mid.state.stage is Unready,
        step_spec(mid, Input::Request(Request::PlayerReq(idx, PlayerRequest::ImUnready)), post, second),
    ensures
        post.players@ == pre.players@,
        post.state == pre.state,
        post.config == pre.config,
        post.timepoint == pre.timepoint,
        post.pending == pre.pending,
{
    let p = pre.players@[idx as int]->0;
    assert(Player { ready: false, ..Player { ready: true, ..p } } == p);
    assert(post.players@ =~= pre.players@);
}

/// The seat whose turn the room is in or about to start: the waiting drawer, else the
/// drawer; -1 before the first turn of a game and `ROOM_SIZE` once the game is over.
pub open spec fn turn_seat(r: Room) -> int {
    match r.pending {
        Some(n) => n as int,
        None => match r.state.stage {
            Stage::Drawing(d) => d as int,
            Stage::Marking(d) => d as int,
            Stage::Over => ROOM_SIZE as int,
            _ => -1,
        },
    }
}

/// The step from `pre` to `post` chooses the drawer of a new turn.
pub open spec fn starts_turn(pre: Room, post: Room) -> bool {
    pre.pending is None && post.pending is Some
}

/// The phases go round in order: waiting, ready, then turns of drawing and marking (each
/// new drawer in a later seat than the last), over, and waiting again.
pub open spec fn stage_moves(pre: Room, post: Room) -> bool {
    pre.state.stage == post.state.stage || match (pre.state.stage, post.state.stage) {
        (Stage::Unready, Stage::Ready) => true,
        (Stage::Ready, Stage::Unready) => true,
        (Stage::Ready, Stage::Drawing(e)) => pre.pending == Some(e),
        (Stage::Drawing(d), Stage::Marking(e)) => d == e,
        (Stage::Marking(d), Stage::Drawing(e)) => pre.pending == Some(e) && d < e,
        (Stage::Marking(_), Stage::Over) => true,
        (Stage::Over, Stage::Unready) => true,
        _ => false,
    }
}

/// Each step keeps the order of the phases; within a game the turn seat never goes back
/// and a new turn goes to a later seat; and a login during a turn changes no seat.
pub proof fn law_stage_order(pre: Room, input: Input, post: Room, acts: Seq<Action>)
    requires
        pre.wf(),
        pre.admits(input),
        step_spec(pre, input, post, acts),
    ensures
        stage_moves(pre, post),
        !(pre.state.stage is Unready) && !(post.state.stage is Unready) ==> turn_seat(pre) <= turn_seat(post),
        starts_turn(pre, post) ==> turn_seat(pre) < turn_seat(post),
        (pre.state.stage is Drawing || pre.state.stage is Marking) && (input matches Input::Request(
            Request::PlayerLogin,
        )) ==> post.players@ == pre.players@ && post.state.player_count == pre.state.player_count,
{
}

/// `rooms` is a run of the room: each room is what the step on the input before it made.
pub open spec fn is_run(rooms: Seq<Room>, inputs: Seq<Input>, acts: Seq<Seq<Action>>) -> bool {
    &&& rooms.len() == inputs.len() + 1
    &&& acts.len() == inputs.len()
    &&& forall|k: int| #![trigger rooms[k]] 0 <= k < inputs.len() ==> {
        &&& rooms[k].wf()
        &&& rooms[k].admits(inputs[k])
        &&& step_spec(rooms[k], inputs[k], rooms[k + 1], acts[k])
    }
}

/// From room `i` to room `j` of the run the room never waits for players: one game.
pub open spec fn in_game(rooms: Seq<Room>, i: int, j: int) -> bool {
    forall|k: int| i <= k <= j ==> !(#[trigger] rooms[k].state.stage is Unready)
}

/// Along a run every step follows the order of the phases.
pub proof fn law_run_follows_stage_order(rooms: Seq<Room>, inputs: Seq<Input>, acts: Seq<Seq<Action>>)
    requires
        is_run(rooms, inputs, acts),
    ensures
        forall|k: int| 0 <= k < inputs.len() ==> stage_moves(#[trigger] rooms[k], rooms[k + 1]),
{
    assert forall|k: int| 0 <= k < inputs.len() implies stage_moves(#[trigger] rooms[k], rooms[k + 1]) by {
        law_stage_order(rooms[k], inputs[k], rooms[k + 1], acts[k]);
    }
}

/// Within one game the turn seat never goes back.
pub proof fn lemma_turn_seat_grows(rooms: Seq<Room>, inputs: Seq<Input>, acts: Seq<Seq<Action>>, i: int, j: int)
    requires
        is_run(rooms, inputs, acts),
        0 <= i <= j < rooms.len(),
        in_game(rooms, i, j),
    ensures
        turn_seat(rooms[i]) <= turn_seat(rooms[j]),
    decreases j - i,
{
    if i < j {
        lemma_turn_seat_grows(rooms, inputs, acts, i, j - 1);
        assert(!(rooms[j - 1].state.stage is Unready));
        assert(!(rooms[j].state.stage is Unready));
        law_stage_order(rooms[j - 1], inputs[j - 1], rooms[j], acts[j - 1]);
    }
}

/// In one game the turns go round the table once: every turn goes to a later seat than
/// the turns before it, so each seat draws at most once, in rising seat order.
pub proof fn law_each_seat_draws_once_per_game(
    rooms: Seq<Room>,
    inputs: Seq<Input>,
    acts: Seq<Seq<Action>>,
    i: int,
    j: int,
)
    requires
        is_run(rooms, inputs, acts),
        0 <= i < j < inputs.len(),
        in_game(rooms, i, j + 1),
        starts_turn(rooms[i], rooms[i + 1]),
        starts_turn(rooms[j], rooms[j + 1]),
    ensures
        rooms[i + 1].pending->0 < rooms[j + 1].pending->0,
{
    lemma_turn_seat_grows(rooms, inputs, acts, i + 1, j);
    assert(!(rooms[j].state.stage is Unready));
    assert(!(rooms[j + 1].state.stage is Unready));
    law_stage_order(rooms[j], inputs[j], rooms[j + 1], acts[j]);
}

/// The player list below seat `n` holds, in rising seat order, one entry for each occupied
/// seat, and each entry is that seat's player shown under that seat's number.
pub proof fn lemma_states_upto(ps: Seq<Option<Player>>, n: int)
    requires
        n <= ROOM_SIZE,
    ensures
        forall|k: int| #![trigger states_upto(ps, n)[k]] 0 <= k < states_upto(ps, n).len() ==> {
            let s = states_upto(ps, n)[k].idx as int;
            &&& s < n
            &&& ps[s] matches Some(p) && states_upto(ps, n)[k] == p.state_at(s)
        },
        forall|k1: int, k2: int|
            0 <= k1 < k2 < states_upto(ps, n).len() ==> #[trigger] states_upto(ps, n)[k1].idx
                < #[trigger] states_upto(ps, n)[k2].idx,
        forall|i: int| 0 <= i < n && #[trigger] ps[i] is Some ==> exists|k: int|
            0 <= k < states_upto(ps, n).len() && #[trigger] states_upto(ps, n)[k].idx == i,
    decreases n,
{
    if n > 0 {
        lemma_states_upto(ps, n - 1);
        let prev = states_upto(ps, n - 1);
        let cur = states_upto(ps, n);
        if ps[n - 1] is Some {
            assert(cur == prev.push(ps[n - 1]->0.state_at(n - 1)));
            assert(cur[prev.len() as int].idx == n - 1);
            assert forall|k: int| #![trigger cur[k]] 0 <= k < cur.len() implies {
                let s = cur[k].idx as int;
                &&& s < n
                &&& ps[s] matches Some(p) && cur[k] == p.state_at(s)
            } by {
                if k < prev.len() {
                    assert(cur[k] == prev[k]);
                }
            }
            assert forall|k1: int, k2: int| 0 <= k1 < k2 < cur.len() implies #[trigger] cur[k1].idx
                < #[trigger] cur[k2].idx by {
                assert(cur[k1] == prev[k1]);
                if k2 < prev.len() {
                    assert(cur[k2] == prev[k2]);
                } else {
                    assert(prev[k1].idx < n - 1);
                }
            }
            assert forall|i: int| 0 <= i < n && #[trigger] ps[i] is Some implies exists|k: int|
                0 <= k < cur.len() && #[trigger] cur[k].idx == i by {
                if i == n - 1 {
                    assert(cur[prev.len() as int].idx == i);
                } else {
                    let k = choose|k: int| 0 <= k < prev.len() && #[trigger] prev[k].idx == i;
                    assert(cur[k] == prev[k]);
                }
            }
        } else {
            assert(cur == prev);
        }
    }
}

/// While seat `d` draws, the turn ends on anything but the drawing timer only when every
/// other occupied seat, before or after the drawer, has guessed the word; and once they all
/// have, it ends.
pub proof fn law_turn_ends_when_all_guessed(pre: Room, req: Request, post: Room, acts: Seq<Action>)
    requires
        pre.wf(),
        pre.admits(Input::Request(req)),
        step_spec(pre, Input::Request(req), post, acts),
        pre.state.stage matches Stage::Drawing(d),
    ensures
        post.state.stage is Marking && !(req matches Request::Timer(TimerType::Draw)) ==> forall|i: int|
            0 <= i < ROOM_SIZE && i != pre.state.stage->Drawing_0 && #[trigger] post.players@[i] is Some
                ==> post.players@[i]->0.right@[pre.state.stage->Drawing_0 as int],
        (forall|i: int|
            0 <= i < ROOM_SIZE && i != pre.state.stage->Drawing_0 && #[trigger] post.players@[i] is Some
                ==> post.players@[i]->0.right@[pre.state.stage->Drawing_0 as int]) ==> post.state.stage
            == Stage::Marking(pre.state.stage->Drawing_0),
{
}

/// A correct guess credits the guesser: the drawer's word is marked as guessed, the
/// seconds of the turn so far are added, and the guess count rises by exactly one.
pub proof fn law_correct_guess_scores(pre: Room, idx: usize, msg: String, post: Room, acts: Seq<Action>)
    requires
        pre.wf(),
        pre.admits(Input::Request(Request::PlayerReq(idx, PlayerRequest::Chat { msg }))),
        step_spec(pre, Input::Request(Request::PlayerReq(idx, PlayerRequest::Chat { msg })), post, acts),
        pre.state.stage matches Stage::Drawing(d),
        idx != pre.state.stage->Drawing_0,
        occurs_in(pre.state.topic@, msg@),
    ensures
        pre.players@[idx as int] is Some,
        post.players@[idx as int] matches Some(q) && {
            let p = pre.players@[idx as int]->0;
            &&& q.drawpoint == p.drawpoint + 1
            &&& q.timepoint == p.timepoint + pre.timepoint
            &&& q.right@[pre.state.stage->Drawing_0 as int]
            &&& q.name == p.name
            &&& q.score == p.score
        },
{
}

/// What observers are told of the stage: "unready" after a step that leaves the room
/// waiting for players, and "gaming" after any other (ready, drawing, marking or over).
pub proof fn law_feeds_tell_the_stage(pre: Room, input: Input, post: Room, acts: Seq<Action>)
    requires
        pre.wf(),
        pre.admits(input),
        step_spec(pre, input, post, acts),
    ensures
        forall|k: int| 0 <= k < acts.len() && (#[trigger] acts[k] matches Action::Feed(ObserverResponse::RoomState(rs)))
            ==> acts[k]->Feed_0->RoomState_0.stage@ == (if post.state.stage is Unready {
                "unready"@
            } else {
                "gaming"@
            }),
{
    match (pre.state.stage, input) {
        (Stage::Drawing(d), Input::Request(req)) => {
            let done = all_right(post.players@, d as int) || req matches Request::Timer(TimerType::Draw);
            let kk = if done { acts.len() - 5 } else { acts.len() as int };
            assert forall|k: int| 0 <= k < acts.len() && (#[trigger] acts[k] matches Action::Feed(ObserverResponse::RoomState(rs)))
                implies acts[k]->Feed_0->RoomState_0.stage@ == "gaming"@ by {
                if k < kk {
                    let head = acts.take(kk);
                    assert(acts[k] == head[k]);
                    assert(stage_text(pre.state.stage) == "gaming"@);
                    match req {
                        Request::ObserverLogin { .. } => {
                            assert(k == 1);
                            assert(feeds(head[1], pre));
                        },
                        Request::PlayerLogout(_) => {
                            assert(k == 0);
                            assert(feeds(head[0], pre));
                        },
                        _ => {},
                    }
                } else {
                    assert(acts[k] == acts.skip(kk)[k - kk]);
                }
            }
        },
        _ => {},
    }
}

/// `e` is the entry of the player in seat `s`, under that seat's number.
pub open spec fn shown_at(ps: Seq<Option<Player>>, s: int, e: PlayerState) -> bool {
    ps[s] is Some && e == ps[s]->0.state_at(s)
}

/// The player list goes with the seats that are addressed: its `k`-th entry is the player
/// of the `k`-th occupied seat, shown under that seat's number.
pub proof fn law_player_list_follows_seats(ps: Seq<Option<Player>>, n: int)
    requires
        0 <= n <= ROOM_SIZE,
        ps.len() == ROOM_SIZE,
    ensures
        states_upto(ps, n).len() == seated(ps, -1, n).len(),
        forall|k: int| #![trigger states_upto(ps, n)[k]] 0 <= k < states_upto(ps, n).len() ==> {
            &&& states_upto(ps, n)[k].idx == seated(ps, -1, n)[k]
            &&& shown_at(ps, seated(ps, -1, n)[k] as int, states_upto(ps, n)[k])
        },
    decreases n,
{
    if n > 0 {
        law_player_list_follows_seats(ps, n - 1);
        let a = states_upto(ps, n);
        let b = seated(ps, -1, n);
        let a0 = states_upto(ps, n - 1);
        let b0 = seated(ps, -1, n - 1);
        if ps[n - 1] is Some {
            assert(a == a0.push(ps[n - 1]->0.state_at(n - 1)));
            assert(b == b0.push((n - 1) as usize));
            assert(a.len() == b.len());
            assert forall|k: int| #![trigger a[k]] 0 <= k < a.len() implies {
                &&& a[k].idx == b[k]
                &&& shown_at(ps, b[k] as int, a[k])
            } by {
                if k < a0.len() {
                    assert(a[k] == a0[k]);
                    assert(b[k] == b0[k]);
                } else {
                    assert(b[k] == n - 1);
                }
            }
        } else {
            assert(a == a0);
            assert(b == b0);
        }
    }
}

/// A mark while the drawing of seat `d` is marked counts once for the drawer: -1 in the
/// first (bad) slot, 1 in the third (good) slot, anything else in the middle one; the other
/// slots stay, and everybody hears the verdict in words.
pub proof fn law_marks_count_by_verdict(pre: Room, idx: usize, score: i8, post: Room, acts: Seq<Action>)
    requires
        pre.wf(),
        pre.admits(Input::Request(Request::PlayerReq(idx, PlayerRequest::Mark { score }))),
        step_spec(pre, Input::Request(Request::PlayerReq(idx, PlayerRequest::Mark { score })), post, acts),
        pre.state.stage matches Stage::Marking(d),
        pre.players@[pre.state.stage->Marking_0 as int] is Some,
    ensures
        ({
            let d = pre.state.stage->Marking_0 as int;
            let before = pre.players@[d]->0.score@;
            let slot = if score == -1 { 0int } else if score == 1 { 2int } else { 1int };
            &&& post.players@[d] matches Some(q) && q.score@[slot] == before[slot] + 1
            &&& forall|j: int| 0 <= j < 3 && j != slot ==> #[trigger] post.players@[d]->0.score@[j] == before[j]
        }),
        acts.len() == 1,
        acts[0] matches Action::Send(_, PlayerResponse::Notice { msg }) && msg@ == pre.players@[idx as int]->0.name@
            + " 对此的评价是 "@ + (if score == -1 {
            "差评如潮"@
        } else if score == 0 {
            "褒贬不一"@
        } else {
            "好评如潮"@
        }),
{
}

} // verus!
