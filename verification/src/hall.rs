//! The lobby: the list of rooms it watches, what it publishes of them, and the codes
//! with which a room is looked up.
use vstd::prelude::*;

use crate::text::{decimal, decimal_string, hex_number, u32_from_hex};

verus! {

/// A room in the lobby's list: where it listens and the name it gave itself, if any.
pub struct RoomItem {
    pub url: String,
    pub name: Option<String>,
}

/// The rooms of the lobby, each under its id.
pub struct Manifest {
    pub rooms: Vec<(String, RoomItem)>,
}

/// One room as the lobby publishes it.
#[derive(Debug, Clone, PartialEq)]
pub struct ManifestRespItem {
    pub id: String,
    pub url: String,
    pub name: Option<String>,
}

/// The published room list.
#[derive(Debug, Clone, PartialEq)]
pub struct ManifestResp(pub Vec<ManifestRespItem>);

/// Where a room code leads: the port of the room and its key.
#[derive(Debug, Clone, PartialEq)]
pub struct PortAndKey {
    pub port: u16,
    pub key: [u8; 8],
}

/// The address of the room on `port` at host `ip`: `ip:port`.
pub open spec fn room_url(ip: Seq<char>, port: nat) -> Seq<char> {
    ip + ":"@ + decimal(port)
}

impl Manifest {
    /// The list of the rooms at host `ip` on each port of `ports`: the room on the `k`-th
    /// port has id `k`, its address, and no name yet.
    pub fn from_ports(ip: &str, ports: std::ops::Range<u16>) -> (m: Manifest)
        ensures
            m.rooms.len() == (if ports.start < ports.end { ports.end - ports.start } else { 0 }),
            forall|k: int| #![trigger m.rooms@[k]] 0 <= k < m.rooms.len() ==> {
                &&& m.rooms@[k].0@ == decimal(k as nat)
                &&& m.rooms@[k].1.url@ == room_url(ip@, (ports.start + k) as nat)
                &&& m.rooms@[k].1.name is None
            },
    {
        let mut rooms: Vec<(String, RoomItem)> = Vec::new();
        let mut id: usize = 0;
        let mut port: u16 = ports.start;
        while port < ports.end
            invariant
                ports.start <= port,
                port <= ports.end || port == ports.start,
                id == port - ports.start,
                rooms.len() == id,
                forall|k: int| #![trigger rooms@[k]] 0 <= k < rooms.len() ==> {
                    &&& rooms@[k].0@ == decimal(k as nat)
                    &&& rooms@[k].1.url@ == room_url(ip@, (ports.start + k) as nat)
                    &&& rooms@[k].1.name is None
                },
            decreases ports.end - port,
        {
            let url = String::from_str(ip).concat(":").concat(decimal_string(port as u64).as_str());
            let key = decimal_string(id as u64);
            rooms.push((key, RoomItem { url, name: None }));
            id = id + 1;
            port = port + 1;
        }
        Manifest { rooms }
    }
}

impl ManifestResp {
    /// What the lobby publishes of its rooms: for each room its id, address and name.
    pub fn from(manifest: &Manifest) -> (r: ManifestResp)
        ensures
            r.0.len() == manifest.rooms.len(),
            forall|k: int| #![trigger r.0@[k]] 0 <= k < r.0.len() ==> {
                &&& r.0@[k].id == manifest.rooms@[k].0
                &&& r.0@[k].url == manifest.rooms@[k].1.url
                &&& r.0@[k].name == manifest.rooms@[k].1.name
            },
    {
        let mut v: Vec<ManifestRespItem> = Vec::new();
        let mut k: usize = 0;
        while k < manifest.rooms.len()
            invariant
                k <= manifest.rooms.len(),
                v.len() == k,
                forall|j: int| #![trigger v@[j]] 0 <= j < k ==> {
                    &&& v@[j].id == manifest.rooms@[j].0
                    &&& v@[j].url == manifest.rooms@[j].1.url
                    &&& v@[j].name == manifest.rooms@[j].1.name
                },
            decreases manifest.rooms.len() - k,
        {
            let (id, room) = &manifest.rooms[k];
            let name = match &room.name {
                Some(n) => Some(n.clone()),
                None => None,
            };
            v.push(ManifestRespItem { id: id.clone(), url: room.url.clone(), name });
            k = k + 1;
        }
        ManifestResp(v)
    }
}

/// The key under which a room code is looked up: the code read as a hexadecimal `u32`,
/// or none when it is not one.
pub fn room_code(hexcode: &str) -> (r: Option<u32>)
    ensures
        r matches Some(v) ==> hex_number(hexcode@, u32::MAX + 1) == Some(v as int),
        r is None ==> hex_number(hexcode@, u32::MAX + 1) is None,
{
    u32_from_hex(hexcode)
}

/// The kind of a websocket message that a watched room sends the lobby.
#[derive(Debug, Clone, Copy, PartialEq, Eq, Structural)]
pub enum Inbound {
    Text,
    Binary,
    Ping,
    Pong,
    Close,
    Frame,
}

/// How long a watched room may stay without a ping, in nanoseconds (a minute).
pub const PING_TIMEOUT_NANOS: u128 = 60_000_000_000;

/// Whether the lobby goes on watching a room after the message `inbound`, when the
/// room's last ping before it came `since_ping` nanoseconds earlier: a close ends the
/// watch, a ping renews it, and any other message ends it once the room has been
/// silent for more than a minute.
pub fn keeps_watching(inbound: Inbound, since_ping: u128) -> (b: bool)
    ensures
        b == match inbound {
            Inbound::Close => false,
            Inbound::Ping => true,
            _ => since_ping <= PING_TIMEOUT_NANOS,
        },
{
    match inbound {
        Inbound::Close => false,
        Inbound::Ping => true,
        _ => since_ping <= PING_TIMEOUT_NANOS,
    }
}

/// Different numbers have different decimal numerals.
pub proof fn lemma_decimal_injective(a: nat, b: nat)
    requires
        decimal(a) == decimal(b),
    ensures
        a == b,
    decreases a,
{
    let da = decimal(a);
    let db = decimal(b);
    if a < 10 || b < 10 {
        if a >= 10 {
            lemma_decimal_long(a / 10);
        }
        if b >= 10 {
            lemma_decimal_long(b / 10);
        }
        crate::text::lemma_digit_roundtrip(a % 10);
        crate::text::lemma_digit_roundtrip(b % 10);
        assert(da.last() == db.last());
    } else {
        assert(da.drop_last() =~= decimal(a / 10));
        assert(db.drop_last() =~= decimal(b / 10));
        lemma_decimal_injective(a / 10, b / 10);
        crate::text::lemma_digit_roundtrip(a % 10);
        crate::text::lemma_digit_roundtrip(b % 10);
        assert(da.last() == db.last());
    }
}

proof fn lemma_decimal_long(n: nat)
    ensures
        decimal(n).len() >= 1,
    decreases n,
{
    if n >= 10 {
        lemma_decimal_long(n / 10);
    }
}

/// Every room of a lobby list made from ports has its own id.
pub proof fn law_room_ids_distinct(m: Manifest)
    requires
        forall|k: int| #![trigger m.rooms@[k]] 0 <= k < m.rooms.len() ==> m.rooms@[k].0@ == decimal(k as nat),
    ensures
        forall|j: int, k: int|
            0 <= j < m.rooms.len() && 0 <= k < m.rooms.len() && j != k ==> #[trigger] m.rooms@[j].0@
                != #[trigger] m.rooms@[k].0@,
{
    assert forall|j: int, k: int|
        0 <= j < m.rooms.len() && 0 <= k < m.rooms.len() && j != k implies #[trigger] m.rooms@[j].0@
        != #[trigger] m.rooms@[k].0@ by {
        if m.rooms@[j].0@ == m.rooms@[k].0@ {
            lemma_decimal_injective(j as nat, k as nat);
        }
    }
}

} // verus!
