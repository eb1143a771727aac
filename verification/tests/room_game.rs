use drawroom::protocol::{ObserverResponse, PlayerRequest, PlayerResponse, PlayerState, RoomState};
use drawroom::room::config::{Lexicon, WordSource};
use drawroom::room::request::{countdown_tick, Request, TimerType};
use drawroom::room::state::Stage;
use drawroom::room::{Action, Awaiting, Input, Room};

fn feed(stage: &str, playercount: u8, user_lexicon: bool, lexicon: u32) -> Action {
    Action::Feed(ObserverResponse::RoomState(RoomState {
        stage: stage.to_string(),
        playercount,
        user_lexicon,
        lexicon,
    }))
}

fn state(name: &str, ready: bool, idx: u8) -> PlayerState {
    PlayerState { name: name.to_string(), ready, idx, score: [0, 0, 0], timepoint: 0, drawpoint: 0 }
}

fn send(to: &[usize], r: PlayerResponse) -> Action {
    Action::Send(to.to_vec(), r)
}

fn notice(to: &[usize], msg: &str) -> Action {
    send(to, PlayerResponse::Notice { msg: msg.to_string() })
}

fn go(room: &mut Room, input: Input) -> Vec<Action> {
    assert!(room.accepts(&input));
    room.step(input)
}

fn req(room: &mut Room, r: Request) -> Vec<Action> {
    go(room, Input::Request(r))
}

fn player(room: &mut Room, idx: usize, r: PlayerRequest) -> Vec<Action> {
    req(room, Request::PlayerReq(idx, r))
}

/// Two players join, get ready, and play a whole game of two turns.
#[test]
fn whole_game_of_two_players() {
    let mut room = Room::new();
    assert_eq!(room.state.stage, Stage::Unready);

    let acts = req(&mut room, Request::PlayerLogin);
    assert_eq!(
        acts,
        vec![
            Action::Attach(0),
            send(&[0], PlayerResponse::PlayerStates(vec![state("<0>", false, 0)])),
            feed("unready", 1, false, 0x7671b09a),
        ]
    );
    let acts = req(&mut room, Request::PlayerLogin);
    assert_eq!(
        acts,
        vec![
            Action::Attach(1),
            send(&[0, 1], PlayerResponse::PlayerStates(vec![state("<0>", false, 0), state("<1>", false, 1)])),
            feed("unready", 2, false, 0x7671b09a),
        ]
    );

    let acts = player(&mut room, 0, PlayerRequest::SetName { name: "alice".to_string() });
    assert_eq!(
        acts,
        vec![send(&[0, 1], PlayerResponse::PlayerStates(vec![state("alice", false, 0), state("<1>", false, 1)]))]
    );

    let acts = player(&mut room, 0, PlayerRequest::ImReady);
    assert_eq!(
        acts,
        vec![send(&[0, 1], PlayerResponse::PlayerStates(vec![state("alice", true, 0), state("<1>", false, 1)]))]
    );
    assert_eq!(room.state.stage, Stage::Unready);

    let acts = player(&mut room, 1, PlayerRequest::ImReady);
    assert_eq!(
        acts,
        vec![
            send(&[0, 1], PlayerResponse::PlayerStates(vec![state("alice", true, 0), state("<1>", true, 1)])),
            send(&[0, 1], PlayerResponse::GameStart),
            feed("gaming", 2, false, 0x7671b09a),
        ]
    );
    assert_eq!(room.state.stage, Stage::Ready);

    let acts = go(&mut room, Input::Tick);
    assert_eq!(acts, vec![send(&[0, 1], PlayerResponse::TurnStart(0))]);
    assert_eq!(room.pending, Some(0));

    let acts = go(&mut room, Input::Word(Some("apple".to_string())));
    assert_eq!(
        acts,
        vec![
            send(&[0], PlayerResponse::Topic { topic_word: "apple".to_string() }),
            Action::SetTimer(60, TimerType::Draw),
        ]
    );
    assert_eq!(room.state.stage, Stage::Drawing(0));
    assert_eq!(room.state.topic, "apple");

    let acts = req(&mut room, Request::CountDown(60));
    assert_eq!(acts, vec![send(&[0, 1], PlayerResponse::CountDown(60))]);
    assert_eq!(room.timepoint, 1);

    let acts = player(&mut room, 1, PlayerRequest::Chat { msg: "banana".to_string() });
    assert_eq!(
        acts,
        vec![send(&[0], PlayerResponse::Chat { sender: "<1>".to_string(), msg: "banana".to_string() })]
    );

    let acts = player(&mut room, 0, PlayerRequest::Frame { bin: vec![1, 2] });
    assert_eq!(acts, vec![send(&[1], PlayerResponse::Frame { bin: vec![1, 2] })]);
    let acts = player(&mut room, 1, PlayerRequest::Frame { bin: vec![3] });
    assert_eq!(acts, vec![]);

    let acts = player(&mut room, 1, PlayerRequest::Chat { msg: "an apple!".to_string() });
    assert_eq!(
        acts,
        vec![
            notice(&[1], "正确答案！"),
            notice(&[0], "<1> 已经猜到了正确答案!"),
            send(&[0, 1], PlayerResponse::TurnEnd),
            send(&[1], PlayerResponse::Poll),
            Action::StopTimer,
            Action::SetTimer(5, TimerType::Mark),
            send(&[0, 1], PlayerResponse::MarkStart),
        ]
    );
    assert_eq!(room.state.stage, Stage::Marking(0));
    assert_eq!(room.timepoint, 0);
    {
        let p1 = room.players[1].as_ref().unwrap();
        assert!(p1.right[0]);
        assert_eq!(p1.timepoint, 1);
        assert_eq!(p1.drawpoint, 1);
    }

    let acts = player(&mut room, 1, PlayerRequest::Mark { score: 1 });
    assert_eq!(acts, vec![notice(&[0, 1], "<1> 对此的评价是 好评如潮")]);
    assert_eq!(room.players[0].as_ref().unwrap().score, [0, 0, 1]);

    let acts = req(&mut room, Request::Timer(TimerType::Mark));
    assert_eq!(acts, vec![send(&[0, 1], PlayerResponse::MarkEnd), send(&[0, 1], PlayerResponse::TurnStart(1))]);
    assert_eq!(room.pending, Some(1));

    let acts = go(&mut room, Input::Word(None));
    assert_eq!(
        acts,
        vec![send(&[1], PlayerResponse::Topic { topic_word: String::new() }), Action::SetTimer(60, TimerType::Draw)]
    );
    assert_eq!(room.state.stage, Stage::Drawing(1));

    let acts = req(&mut room, Request::Timer(TimerType::Draw));
    assert_eq!(
        acts,
        vec![
            send(&[0, 1], PlayerResponse::TurnEnd),
            send(&[0], PlayerResponse::Poll),
            Action::StopTimer,
            Action::SetTimer(5, TimerType::Mark),
            send(&[0, 1], PlayerResponse::MarkStart),
        ]
    );

    let acts = req(&mut room, Request::Timer(TimerType::Mark));
    assert_eq!(acts, vec![send(&[0, 1], PlayerResponse::MarkEnd)]);
    assert_eq!(room.state.stage, Stage::Over);

    let acts = go(&mut room, Input::Tick);
    assert_eq!(
        acts,
        vec![
            notice(&[0, 1], "本轮结束"),
            send(&[0, 1], PlayerResponse::GameEnd),
            send(&[0, 1], PlayerResponse::PlayerStates(vec![state("alice", false, 0), state("<1>", false, 1)])),
            feed("unready", 2, false, 0x7671b09a),
        ]
    );
    assert_eq!(room.state.stage, Stage::Unready);
}

fn room_with(n: usize) -> Room {
    let mut room = Room::new();
    for _ in 0..n {
        req(&mut room, Request::PlayerLogin);
    }
    room
}

#[test]
fn ninth_player_finds_no_seat() {
    let mut room = room_with(8);
    assert_eq!(room.state.player_count, 8);
    let acts = req(&mut room, Request::PlayerLogin);
    assert_eq!(acts, vec![]);
    assert_eq!(room.state.player_count, 8);
}

#[test]
fn login_player_reports_full_room() {
    let mut room = room_with(8);
    assert_eq!(room.login_player(), Err(drawroom::room::error::ErrorKind::RoomFullfilled));
    let mut room = room_with(3);
    let acts = room.login_player().unwrap();
    assert_eq!(acts[0], Action::Attach(3));
    assert_eq!(acts.len(), 3);
    assert_eq!(room.state.player_count, 4);
    assert_eq!(acts[2], feed("unready", 4, false, 0x7671b09a));
}

#[test]
fn newcomer_takes_first_free_seat() {
    let mut room = room_with(3);
    let acts = req(&mut room, Request::PlayerLogout(1));
    assert_eq!(acts.len(), 3);
    assert_eq!(acts[2], Action::Detach(1));
    assert!(room.players[1].is_none());
    assert_eq!(room.state.player_count, 2);
    let acts = req(&mut room, Request::PlayerLogin);
    assert_eq!(acts[0], Action::Attach(1));
    assert_eq!(room.players[1].as_ref().unwrap().name, "<1>");
}

#[test]
fn leaving_player_hears_the_room_as_it_was() {
    let mut room = room_with(2);
    let acts = req(&mut room, Request::PlayerLogout(0));
    assert_eq!(
        acts,
        vec![
            feed("unready", 2, false, 0x7671b09a),
            send(&[0, 1], PlayerResponse::PlayerStates(vec![state("<0>", false, 0), state("<1>", false, 1)])),
            Action::Detach(0),
        ]
    );
}

#[test]
fn leaving_an_empty_seat_makes_the_count_drift() {
    let mut room = room_with(2);
    req(&mut room, Request::PlayerLogout(1));
    req(&mut room, Request::PlayerLogout(1));
    assert_eq!(room.state.player_count, 0);
    assert!(room.players[0].is_some());
    assert!(!room.accepts(&Input::Request(Request::PlayerLogout(0))));
}

#[test]
fn one_ready_player_does_not_start_a_game() {
    let mut room = room_with(1);
    let acts = player(&mut room, 0, PlayerRequest::ImReady);
    assert_eq!(acts.len(), 1);
    assert_eq!(room.state.stage, Stage::Unready);
    assert!(!room.every_one_ready());
}

#[test]
fn unready_takes_readiness_back() {
    let mut room = room_with(2);
    player(&mut room, 0, PlayerRequest::ImReady);
    assert!(room.players[0].as_ref().unwrap().ready);
    let acts = player(&mut room, 0, PlayerRequest::ImUnready);
    assert_eq!(
        acts,
        vec![send(&[0, 1], PlayerResponse::PlayerStates(vec![state("<0>", false, 0), state("<1>", false, 1)]))]
    );
}

#[test]
fn chat_while_waiting_skips_the_sender() {
    let mut room = room_with(3);
    let acts = player(&mut room, 1, PlayerRequest::Chat { msg: "hi".to_string() });
    assert_eq!(acts, vec![send(&[0, 2], PlayerResponse::Chat { sender: "<1>".to_string(), msg: "hi".to_string() })]);
}

#[test]
fn chat_from_empty_seat_has_no_sender_name() {
    let mut room = room_with(1);
    let acts = player(&mut room, 5, PlayerRequest::Chat { msg: "x".to_string() });
    assert_eq!(acts, vec![send(&[0], PlayerResponse::Chat { sender: String::new(), msg: "x".to_string() })]);
}

#[test]
fn requests_for_missing_seats_are_refused() {
    let room = room_with(1);
    assert!(!room.accepts(&Input::Request(Request::PlayerReq(3, PlayerRequest::ImReady))));
    assert!(!room.accepts(&Input::Request(Request::PlayerReq(9, PlayerRequest::Chat { msg: String::new() }))));
    assert!(room.accepts(&Input::Request(Request::PlayerReq(9, PlayerRequest::Frame { bin: vec![] }))));
    assert!(!room.accepts(&Input::Tick));
    assert!(!room.accepts(&Input::Word(None)));
}

#[test]
fn uploaded_and_service_lexicons_are_announced() {
    let mut room = room_with(2);
    let acts = player(&mut room, 0, PlayerRequest::Lexicon(vec!["cat".to_string()]));
    assert_eq!(acts, vec![notice(&[0, 1], "<0> 上传了词库")]);
    assert!(matches!(&room.config.lexicon, Lexicon::Upload(w) if w == &vec!["cat".to_string()]));
    match room.config.lexicon.next_word() {
        WordSource::Picked(Some(w)) => assert_eq!(w, "cat"),
        _ => panic!("an uploaded word is picked"),
    }
    let observers = room.get_room_states();
    assert_eq!(
        observers,
        ObserverResponse::RoomState(RoomState { stage: "unready".to_string(), playercount: 2, user_lexicon: true, lexicon: 0 })
    );

    let acts = player(&mut room, 1, PlayerRequest::LexiconService(0xabc));
    assert_eq!(acts, vec![notice(&[0, 1], "<1> 添加了服务器词库")]);
    match room.config.lexicon.next_word() {
        WordSource::Fetch(url) => assert_eq!(url, "http://127.0.0.1:3030/rand-word/00000abc"),
        _ => panic!("a service word is fetched"),
    }
}

#[test]
fn uploaded_word_is_one_of_the_list() {
    let words: Vec<String> = vec!["a".to_string(), "b".to_string(), "c".to_string()];
    let lex = Lexicon::Upload(words.clone());
    for _ in 0..20 {
        match lex.next_word() {
            WordSource::Picked(Some(w)) => assert!(words.contains(&w)),
            _ => panic!("an uploaded word is picked"),
        }
    }
    assert_eq!(drawroom::room::config::pick_word(&words, 7), "b");
    assert!(matches!(Lexicon::_None.next_word(), WordSource::Picked(None)));
}

fn drawing_room() -> Room {
    let mut room = room_with(3);
    for i in 0..3 {
        player(&mut room, i, PlayerRequest::ImReady);
    }
    go(&mut room, Input::Tick);
    go(&mut room, Input::Word(Some("tree".to_string())));
    assert_eq!(room.state.stage, Stage::Drawing(0));
    room
}

#[test]
fn correct_guess_is_never_relayed_as_chat() {
    let mut room = drawing_room();
    let acts = player(&mut room, 2, PlayerRequest::Chat { msg: "tree".to_string() });
    assert_eq!(acts, vec![notice(&[2], "正确答案！"), notice(&[0, 1], "<2> 已经猜到了正确答案!")]);
    assert_eq!(room.state.stage, Stage::Drawing(0));
    let acts = player(&mut room, 0, PlayerRequest::Chat { msg: "it is a tree".to_string() });
    assert_eq!(acts, vec![]);
}

#[test]
fn turn_ends_when_everybody_else_guessed() {
    let mut room = drawing_room();
    player(&mut room, 1, PlayerRequest::Chat { msg: "tree".to_string() });
    assert!(!room.every_one_right(0));
    let acts = player(&mut room, 2, PlayerRequest::Chat { msg: "tree!".to_string() });
    assert_eq!(acts.len(), 7);
    assert!(room.every_one_right(0));
    assert_eq!(room.state.stage, Stage::Marking(0));
}

#[test]
fn drawer_alone_ends_the_turn_at_once() {
    let mut room = drawing_room();
    req(&mut room, Request::PlayerLogout(1));
    let acts = req(&mut room, Request::PlayerLogout(2));
    assert_eq!(acts.len(), 8);
    assert_eq!(room.state.stage, Stage::Marking(0));
}

#[test]
fn late_login_during_a_game_is_ignored() {
    let mut room = drawing_room();
    let acts = req(&mut room, Request::PlayerLogin);
    assert_eq!(acts, vec![]);
    assert_eq!(room.state.player_count, 3);
}

#[test]
fn observers_come_and_go() {
    let mut room = room_with(1);
    let acts = req(&mut room, Request::ObserverLogin { addr: "1.2.3.4:5".to_string(), name: "Anon".to_string() });
    assert_eq!(acts, vec![Action::AddObserver("1.2.3.4:5[Anon]".to_string()), feed("unready", 1, false, 0x7671b09a)]);
    let acts = req(&mut room, Request::ObserverLogout("1.2.3.4:5[Anon]".to_string()));
    assert_eq!(acts, vec![Action::RemoveObserver("1.2.3.4:5[Anon]".to_string())]);
}

#[test]
fn marks_count_in_their_slot() {
    let mut room = drawing_room();
    req(&mut room, Request::Timer(TimerType::Draw));
    assert_eq!(room.state.stage, Stage::Marking(0));
    let acts = player(&mut room, 1, PlayerRequest::Mark { score: -1 });
    assert_eq!(acts, vec![notice(&[0, 1, 2], "<1> 对此的评价是 差评如潮")]);
    let acts = player(&mut room, 2, PlayerRequest::Mark { score: 0 });
    assert_eq!(acts, vec![notice(&[0, 1, 2], "<2> 对此的评价是 褒贬不一")]);
    player(&mut room, 2, PlayerRequest::Mark { score: 7 });
    assert_eq!(room.players[0].as_ref().unwrap().score, [1, 2, 0]);
    let acts = player(&mut room, 1, PlayerRequest::Chat { msg: "nice".to_string() });
    assert_eq!(acts, vec![send(&[0, 2], PlayerResponse::Chat { sender: "<1>".to_string(), msg: "nice".to_string() })]);
}

#[test]
fn nobody_ready_sends_room_back_to_waiting() {
    let mut room = room_with(2);
    room.state.stage = Stage::Ready;
    let acts = go(&mut room, Input::Tick);
    assert_eq!(acts, vec![]);
    assert_eq!(room.state.stage, Stage::Unready);
    assert_eq!(room.pending, None);
}

#[test]
fn next_drawer_skips_unready_and_empty_seats() {
    let mut room = room_with(4);
    player(&mut room, 2, PlayerRequest::ImReady);
    assert_eq!(room.get_next_drawer(None), Some(2));
    assert_eq!(room.get_next_drawer(Some(2)), None);
    player(&mut room, 0, PlayerRequest::ImReady);
    assert_eq!(room.get_next_drawer(None), Some(0));
    assert_eq!(room.get_next_drawer(Some(0)), Some(2));
}

#[test]
fn check_answer_looks_for_the_word_inside() {
    let mut room = Room::new();
    room.state.topic = "猫".to_string();
    assert!(room.check_answer(&"一只猫".to_string()));
    assert!(!room.check_answer(&"狗".to_string()));
    room.state.topic = String::new();
    assert!(room.check_answer(&"anything".to_string()));
}

#[test]
fn countdown_counts_down_then_fires() {
    assert_eq!(countdown_tick(60, 0, TimerType::Draw), Request::CountDown(60));
    assert_eq!(countdown_tick(60, 59, TimerType::Draw), Request::CountDown(1));
    assert_eq!(countdown_tick(5, 5, TimerType::Mark), Request::Timer(TimerType::Mark));
}

#[test]
fn new_room_shows_its_defaults() {
    let room = Room::new();
    assert_eq!(room.config.round_time, 90);
    assert_eq!(room.config.token, None);
    assert!(!room.config.lexicon_lock);
    assert_eq!(room.state.player_count, 0);
    assert_eq!(room.state.topic, "当你看到这个，意味着设置关键词的逻辑上出现了bug");
    assert_eq!(room.get_room_states(), ObserverResponse::RoomState(RoomState {
        stage: "unready".to_string(),
        playercount: 0,
        user_lexicon: false,
        lexicon: 0x7671b09a,
    }));
}

#[test]
fn room_says_what_it_waits_for() {
    let mut room = room_with(2);
    assert_eq!(room.awaiting(), Awaiting::Request);
    player(&mut room, 0, PlayerRequest::ImReady);
    player(&mut room, 1, PlayerRequest::ImReady);
    assert_eq!(room.awaiting(), Awaiting::Tick);
    go(&mut room, Input::Tick);
    assert_eq!(room.awaiting(), Awaiting::Word);
    go(&mut room, Input::Word(None));
    assert_eq!(room.awaiting(), Awaiting::Request);
}

#[test]
fn logout_tells_the_room_before_freeing_the_seat() {
    let mut room = room_with(2);
    let acts = room.logout(1);
    assert_eq!(
        acts,
        vec![
            feed("unready", 2, false, 0x7671b09a),
            send(&[0, 1], PlayerResponse::PlayerStates(vec![state("<0>", false, 0), state("<1>", false, 1)])),
            Action::Detach(1),
        ]
    );
    assert!(room.players[1].is_none());
    assert_eq!(room.state.player_count, 1);
}

#[test]
fn next_drawer_after_the_last_seat_is_none() {
    let mut room = room_with(8);
    player(&mut room, 7, PlayerRequest::ImReady);
    assert_eq!(room.get_next_drawer(Some(7)), None);
    assert_eq!(room.get_next_drawer(Some(100)), None);
    assert_eq!(room.get_next_drawer(Some(6)), Some(7));
}

#[test]
fn lone_player_is_everybody_right_for_any_seat() {
    assert!(Room::new().every_one_right(20));
    let room = room_with(1);
    assert!(room.every_one_right(0));
    let room = room_with(2);
    assert!(!room.every_one_right(0));
}

#[test]
fn a_game_goes_round_the_table_once() {
    let mut room = room_with(3);
    for i in 0..3 {
        player(&mut room, i, PlayerRequest::ImReady);
    }
    let mut drawers = Vec::new();
    let mut stages = vec![room.state.stage];
    loop {
        match room.awaiting() {
            Awaiting::Tick => {
                go(&mut room, Input::Tick);
            },
            Awaiting::Word => {
                drawers.push(room.pending.unwrap());
                go(&mut room, Input::Word(Some("w".to_string())));
            },
            Awaiting::Request => match room.state.stage {
                Stage::Drawing(_) => {
                    req(&mut room, Request::Timer(TimerType::Draw));
                },
                Stage::Marking(_) => {
                    req(&mut room, Request::PlayerLogin);
                    req(&mut room, Request::Timer(TimerType::Mark));
                },
                _ => break,
            },
        }
        if stages.last() != Some(&room.state.stage) {
            stages.push(room.state.stage);
        }
    }
    assert_eq!(drawers, vec![0, 1, 2]);
    assert_eq!(
        stages,
        vec![
            Stage::Ready,
            Stage::Drawing(0),
            Stage::Marking(0),
            Stage::Drawing(1),
            Stage::Marking(1),
            Stage::Drawing(2),
            Stage::Marking(2),
            Stage::Over,
            Stage::Unready,
        ]
    );
    assert_eq!(room.state.player_count, 3);
}
