//! Who may open a connection to a room: players at `/login` (with the room's token when
//! it has one) and observers at `/ob`.
use vstd::prelude::*;

use crate::text::{hex_number, u128_from_hex};

verus! {

/// How a connection enters the room.
#[derive(Debug, Clone, PartialEq)]
pub enum LoginType {
    Player,
    Observer(String),
    Reject,
}

/// The `room-token` header of a handshake: absent, not readable as text, or its text.
#[derive(Debug, Clone, PartialEq)]
pub enum HeaderToken {
    Missing,
    Unreadable,
    Text(String),
}

/// A header byte that reads as text: visible ASCII or a tab.
pub open spec fn visible_ascii(b: u8) -> bool {
    (32 <= b && b < 127) || b == 9
}

/// The characters of ASCII bytes, one for each.
pub open spec fn ascii_chars(bytes: Seq<u8>) -> Seq<char> {
    bytes.map_values(|b: u8| (b as int) as char)
}

/// Every byte reads as text.
pub open spec fn all_visible(bytes: Seq<u8>) -> bool {
    forall|i: int| 0 <= i < bytes.len() ==> visible_ascii(#[trigger] bytes[i])
}

/// `h` is how the handshake reads the header `value`: missing, its text when every byte
/// reads as text, else unreadable.
pub open spec fn header_reading(value: Option<&[u8]>, h: HeaderToken) -> bool {
    match value {
        None => h == HeaderToken::Missing,
        Some(b) => if all_visible(b@) {
            h matches HeaderToken::Text(s) && s@ == ascii_chars(b@)
        } else {
            h == HeaderToken::Unreadable
        },
    }
}

/// The text of ASCII bytes, with `String::from_utf8_lossy`.
/// Claimed of the std function: bytes below 128 are valid UTF-8, each the character of
/// the same number, so nothing is replaced and the text has one character per byte.
#[verifier::external_body]
fn ascii_text(bytes: &[u8]) -> (s: String)
    requires
        forall|i: int| 0 <= i < bytes@.len() ==> bytes@[i] < 128,
    ensures
        s@ == ascii_chars(bytes@),
{
    String::from_utf8_lossy(bytes).into_owned()
}

/// The `room-token` header as the handshake reads it, from the header's bytes (none when
/// the request has no such header): its text when every byte is visible ASCII or a tab,
/// and unreadable otherwise.
pub fn header_token(value: Option<&[u8]>) -> (h: HeaderToken)
    ensures
        header_reading(value, h),
{
    match value {
        None => HeaderToken::Missing,
        Some(bytes) => {
            let mut i: usize = 0;
            while i < bytes.len()
                invariant
                    value == Some(bytes),
                    i <= bytes@.len(),
                    forall|j: int| 0 <= j < i ==> visible_ascii(#[trigger] bytes@[j]),
                decreases bytes@.len() - i,
            {
                let b = bytes[i];
                if !((32 <= b && b < 127) || b == 9) {
                    assert(!visible_ascii(bytes@[i as int]));
                    return HeaderToken::Unreadable;
                }
                i = i + 1;
            }
            HeaderToken::Text(ascii_text(bytes))
        },
    }
}

/// The answer is a refusal with the reason `why`.
pub open spec fn refused(r: Result<LoginType, String>, why: Seq<char>) -> bool {
    r matches Err(e) && e@ == why
}

/// The decision on a handshake for `path`, with the room's `token` (if it has one) and
/// the request's `room-token` header: the way in, or why not.
pub open spec fn admission(path: Seq<char>, token: Option<u128>, header: HeaderToken, r: Result<LoginType, String>) -> bool {
    if path == "/login"@ {
        match token {
            None => r == Ok::<LoginType, String>(LoginType::Player),
            Some(t) => match header {
                HeaderToken::Missing => refused(r, "NoToken"@),
                HeaderToken::Unreadable => refused(r, "CanNotDecode"@),
                HeaderToken::Text(s) => match hex_number(s@, u128::MAX + 1) {
                    None => refused(r, "NotHex"@),
                    Some(v) => if v == t {
                        r == Ok::<LoginType, String>(LoginType::Player)
                    } else {
                        refused(r, "WrongToken"@)
                    },
                },
            },
        }
    } else if path == "/ob"@ {
        r matches Ok(LoginType::Observer(n)) && n@ == "Anon"@
    } else {
        refused(r, "PathError"@)
    }
}

/// Decides a handshake: a player at `/login` when the room has no token or the header
/// holds it in hexadecimal, an observer called `Anon` at `/ob`, and otherwise the reason
/// for the refusal.
pub fn on_request(path: &str, token: Option<u128>, header: HeaderToken) -> (r: Result<LoginType, String>)
    ensures
        admission(path@, token, header, r),
{
    let path = String::from_str(path);
    if path == String::from_str("/login") {
        match token {
            None => Ok(LoginType::Player),
            Some(token) => match header {
                HeaderToken::Missing => Err(String::from_str("NoToken")),
                HeaderToken::Unreadable => Err(String::from_str("CanNotDecode")),
                HeaderToken::Text(text) => match u128_from_hex(text.as_str()) {
                    Some(req_token) => {
                        if req_token == token {
                            Ok(LoginType::Player)
                        } else {
                            Err(String::from_str("WrongToken"))
                        }
                    },
                    None => Err(String::from_str("NotHex")),
                },
            },
        }
    } else if path == String::from_str("/ob") {
        Ok(LoginType::Observer(String::from_str("Anon")))
    } else {
        Err(String::from_str("PathError"))
    }
}

} // verus!
