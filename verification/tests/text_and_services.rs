use drawroom::hall::{keeps_watching, room_code, Inbound, Manifest, ManifestResp, ManifestRespItem};
use drawroom::lexicon_db::{Name, RandWord};
use drawroom::login::{header_token, on_request, HeaderToken, LoginType};
use drawroom::player::Player;
use drawroom::room::config::{word_url_of, Config, Lexicon};
use drawroom::room::handlers::{observer_localname, verdict_text};
use drawroom::room::state::{Stage, State};
use drawroom::text::{decimal_string, hex8_string};

#[test]
fn decimal_numerals() {
    assert_eq!(decimal_string(0), "0");
    assert_eq!(decimal_string(7), "7");
    assert_eq!(decimal_string(10), "10");
    assert_eq!(decimal_string(1234), "1234");
    assert_eq!(decimal_string(u64::MAX), u64::MAX.to_string());
}

#[test]
fn hex_numerals_have_eight_digits() {
    assert_eq!(hex8_string(0), "00000000");
    assert_eq!(hex8_string(0xff), "000000ff");
    assert_eq!(hex8_string(0x7671b09a), "7671b09a");
    assert_eq!(hex8_string(u32::MAX), "ffffffff");
}

#[test]
fn room_codes_read_as_hexadecimal() {
    assert_eq!(room_code("7671b09a"), Some(0x7671b09a));
    assert_eq!(room_code("FFffFFff"), Some(u32::MAX));
    assert_eq!(room_code("+ff"), Some(255));
    assert_eq!(room_code("0"), Some(0));
    assert_eq!(room_code(""), None);
    assert_eq!(room_code("+"), None);
    assert_eq!(room_code("-1"), None);
    assert_eq!(room_code("1_0"), None);
    assert_eq!(room_code(" 1"), None);
    assert_eq!(room_code("100000000"), None);
    assert_eq!(room_code("g"), None);
}

#[test]
fn eight_digit_code_reads_back() {
    for code in [0u32, 1, 0xabc, 0x7671b09a, u32::MAX] {
        assert_eq!(room_code(&hex8_string(code)), Some(code));
    }
}

#[test]
fn word_service_address() {
    assert_eq!(word_url_of(0x7671b09a), "http://127.0.0.1:3030/rand-word/7671b09a");
    assert_eq!(word_url_of(1), "http://127.0.0.1:3030/rand-word/00000001");
}

#[test]
fn word_service_queries() {
    assert_eq!(
        RandWord("7671b09a".to_string()).query_text(),
        "select word from '7671b09a' order by random() limit 1;"
    );
    assert_eq!(
        Name("ABC".to_string()).query_text(),
        Some("select name from lexindex where lexcode='00000abc';".to_string())
    );
    assert_eq!(Name("xyz".to_string()).query_text(), None);
    assert_eq!(
        Name(hex8_string(0x7671b09a)).query_text(),
        Some("select name from lexindex where lexcode='7671b09a';".to_string())
    );
}

#[test]
fn login_without_room_token() {
    assert_eq!(on_request("/login", None, HeaderToken::Missing), Ok(LoginType::Player));
    assert_eq!(on_request("/ob", None, HeaderToken::Missing), Ok(LoginType::Observer("Anon".to_string())));
    assert_eq!(on_request("/ob", Some(5), HeaderToken::Unreadable), Ok(LoginType::Observer("Anon".to_string())));
    assert_eq!(on_request("/other", None, HeaderToken::Missing), Err("PathError".to_string()));
    assert_eq!(on_request("/login/", None, HeaderToken::Missing), Err("PathError".to_string()));
}

#[test]
fn login_with_room_token() {
    let t = Some(0xdead_beefu128);
    assert_eq!(on_request("/login", t, HeaderToken::Text("deadbeef".to_string())), Ok(LoginType::Player));
    assert_eq!(on_request("/login", t, HeaderToken::Text("DEADBEEF".to_string())), Ok(LoginType::Player));
    assert_eq!(on_request("/login", t, HeaderToken::Text("deadbeee".to_string())), Err("WrongToken".to_string()));
    assert_eq!(on_request("/login", t, HeaderToken::Text("zz".to_string())), Err("NotHex".to_string()));
    assert_eq!(on_request("/login", t, HeaderToken::Unreadable), Err("CanNotDecode".to_string()));
    assert_eq!(on_request("/login", t, HeaderToken::Missing), Err("NoToken".to_string()));
    let big = Some(u128::MAX);
    assert_eq!(
        on_request("/login", big, HeaderToken::Text("ffffffffffffffffffffffffffffffff".to_string())),
        Ok(LoginType::Player)
    );
    assert_eq!(
        on_request("/login", big, HeaderToken::Text("1ffffffffffffffffffffffffffffffff".to_string())),
        Err("NotHex".to_string())
    );
}

#[test]
fn manifest_lists_rooms_by_port() {
    let m = Manifest::from_ports("10.0.0.1", 9000..9003);
    assert_eq!(m.rooms.len(), 3);
    assert_eq!(m.rooms[0].0, "0");
    assert_eq!(m.rooms[2].0, "2");
    assert_eq!(m.rooms[1].1.url, "10.0.0.1:9001");
    assert!(m.rooms[1].1.name.is_none());
    let resp = ManifestResp::from(&m);
    assert_eq!(
        resp.0[2],
        ManifestRespItem { id: "2".to_string(), url: "10.0.0.1:9002".to_string(), name: None }
    );
    assert_eq!(Manifest::from_ports("h", 5..5).rooms.len(), 0);
    assert_eq!(Manifest::from_ports("h", 6..5).rooms.len(), 0);
}

#[test]
fn manifest_ids_are_distinct() {
    let m = Manifest::from_ports("h", 0..20);
    for j in 0..20 {
        for k in 0..20 {
            if j != k {
                assert_ne!(m.rooms[j].0, m.rooms[k].0);
            }
        }
    }
}

#[test]
fn player_lifecycle() {
    let mut p = Player::new(3);
    assert_eq!(p.name, "<3>");
    assert!(!p.ready);
    p.ready();
    p.set_right(5);
    p.add_draw_point();
    p.mark(1);
    p.mark(-1);
    p.mark(42);
    p.set_name("bob".to_string());
    let s = p.get_state(3);
    assert_eq!(s.name, "bob");
    assert!(s.ready);
    assert_eq!(s.idx, 3);
    assert_eq!(s.score, [1, 1, 1]);
    assert_eq!(s.drawpoint, 1);
    assert!(p.right[5]);
    p.reset();
    assert_eq!(p.get_name(), "bob");
    assert!(!p.ready);
    assert_eq!(p.score, [0, 0, 0]);
    assert_eq!(p.right, [false; 8]);
    assert_eq!(p.drawpoint, 0);
    p.unready();
    assert!(!p.ready);
}

#[test]
fn defaults_of_config_and_state() {
    let c = Config::new();
    assert!(matches!(c.lexicon, Lexicon::Server(0x7671b09a)));
    let s = State::new();
    assert_eq!(s.stage, Stage::Unready);
    assert_eq!(s.player_count, 0);
}

#[test]
fn observer_names_and_verdicts() {
    assert_eq!(observer_localname(&"1.2.3.4:80".to_string(), &"Anon".to_string()), "1.2.3.4:80[Anon]");
    assert_eq!(verdict_text(-1), "差评如潮");
    assert_eq!(verdict_text(0), "褒贬不一");
    assert_eq!(verdict_text(1), "好评如潮");
    assert_eq!(verdict_text(-7), "好评如潮");
}

#[test]
fn lobby_watch_ends_on_close_or_silence() {
    assert!(!keeps_watching(Inbound::Close, 0));
    assert!(keeps_watching(Inbound::Ping, u128::MAX));
    assert!(keeps_watching(Inbound::Binary, 60_000_000_000));
    assert!(!keeps_watching(Inbound::Binary, 60_000_000_001));
    assert!(!keeps_watching(Inbound::Pong, 61_000_000_000));
}

#[test]
fn room_token_header_is_read_as_visible_text() {
    assert_eq!(header_token(None), HeaderToken::Missing);
    assert_eq!(header_token(Some(&b"deadBEEF"[..])), HeaderToken::Text("deadBEEF".to_string()));
    assert_eq!(header_token(Some(&b"a\tb ~"[..])), HeaderToken::Text("a\tb ~".to_string()));
    assert_eq!(header_token(Some(&b""[..])), HeaderToken::Text(String::new()));
    assert_eq!(header_token(Some(&b"ab\ncd"[..])), HeaderToken::Unreadable);
    assert_eq!(header_token(Some(&[0x41u8, 0x7f][..])), HeaderToken::Unreadable);
    assert_eq!(header_token(Some(&[0xc3u8, 0xa9][..])), HeaderToken::Unreadable);
}
