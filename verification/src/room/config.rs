//! How a room is set up, and where its words come from.
use vstd::prelude::*;

use crate::text::{hex8_string, hex_fixed};

verus! {

/// The room's settings.
pub struct Config {
    pub round_time: usize,
    pub token: Option<u128>,
    pub lexicon: Lexicon,
    pub lexicon_lock: bool,
}

/// The lexicon code a new room draws its words from.
pub const DEFAULT_LEXCODE: u32 = 0x7671b09a;

impl Config {
    pub fn new() -> (c: Config)
        ensures
            c.round_time == 90,
            c.token is None,
            c.lexicon == Lexicon::Server(DEFAULT_LEXCODE),
            !c.lexicon_lock,
    {
        Config { round_time: 90, token: None, lexicon: Lexicon::Server(DEFAULT_LEXCODE), lexicon_lock: false }
    }
}

/// Where the words come from: a list a player uploaded, a lexicon of the word service
/// (by its code), a repository, or nowhere.
pub enum Lexicon {
    Upload(Vec<String>),
    Server(u32),
    Git(Vec<String>),
    _None,
}

/// How the next word is had: already picked (or known to be missing), or to be fetched
/// from the given address of the word service.
pub enum WordSource {
    Picked(Option<String>),
    Fetch(String),
}

/// The address at which the word service hands out a random word of lexicon `code`.
pub open spec fn word_url(code: u32) -> Seq<char> {
    "http://127.0.0.1:3030/rand-word/"@ + hex_fixed(code as nat, 8)
}

/// A random `usize`, from `rand::random`. Nothing is claimed of its value.
#[verifier::external_body]
fn random_usize() -> usize {
    rand::random::<usize>()
}

/// The address of the word service's random word for lexicon `code`.
pub fn word_url_of(code: u32) -> (url: String)
    ensures
        url@ == word_url(code),
{
    String::from_str("http://127.0.0.1:3030/rand-word/").concat(hex8_string(code).as_str())
}

/// The word of `words` that the number `r` picks: the one at `r` modulo the length.
pub fn pick_word(words: &Vec<String>, r: usize) -> (w: String)
    requires
        words.len() > 0,
    ensures
        w == words@[(r % words.len()) as int],
{
    let idx = r % words.len();
    words[idx].clone()
}

impl Lexicon {
    /// A word can be asked of this lexicon: an uploaded list is not empty, and a repository
    /// is not one (that source is not written yet).
    pub open spec fn can_draw(&self) -> bool {
        match self {
            Lexicon::Upload(words) => words.len() > 0,
            Lexicon::Git(_) => false,
            _ => true,
        }
    }

    /// How the next word is had: a random word of an uploaded list, the address of the
    /// word service for a service lexicon, no word at all without a lexicon.
    pub fn next_word(&self) -> (w: WordSource)
        requires
            self.can_draw(),
        ensures
            self matches Lexicon::Upload(words) ==> (w matches WordSource::Picked(Some(s)) && exists|k: int|
                0 <= k < words.len() && s == #[trigger] words@[k]),
            self matches Lexicon::Server(code) ==> (w matches WordSource::Fetch(url) && url@ == word_url(*code)),
            self is _None ==> w matches WordSource::Picked(None),
    {
        match self {
            Lexicon::Upload(words) => {
                let r = random_usize();
                let s = pick_word(words, r);
                assert(s == words@[(r % words.len()) as int]);
                WordSource::Picked(Some(s))
            },
            Lexicon::Server(code) => WordSource::Fetch(word_url_of(*code)),
            _ => WordSource::Picked(None),
        }
    }
}

} // verus!
