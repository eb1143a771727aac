//! The queries of the word service: a random word of a lexicon, and a lexicon's name.
use vstd::prelude::*;

use crate::text::{hex8_string, hex_fixed, hex_number, lemma_hex8_roundtrip, u32_from_hex};

verus! {

/// A random word of the lexicon whose table is named by the code.
pub struct RandWord(pub String);

/// The name of the lexicon with the given hexadecimal code.
pub struct Name(pub String);

/// The query for a random word of the table `table`.
pub open spec fn rand_word_query(table: Seq<char>) -> Seq<char> {
    "select word from '"@ + table + "' order by random() limit 1;"@
}

/// The query for the name of the lexicon that `code` names in hexadecimal, in the index's
/// eight-digit form; none when `code` is not a hexadecimal `u32`.
pub open spec fn name_query(code: Seq<char>) -> Option<Seq<char>> {
    match hex_number(code, u32::MAX + 1) {
        Some(v) => Some("select name from lexindex where lexcode='"@ + hex_fixed(v as nat, 8) + "';"@),
        None => None,
    }
}

impl RandWord {
    pub fn query_text(&self) -> (q: String)
        ensures
            q@ == rand_word_query(self.0@),
    {
        String::from_str("select word from '").concat(self.0.as_str()).concat("' order by random() limit 1;")
    }
}

impl Name {
    pub fn query_text(&self) -> (q: Option<String>)
        ensures
            q matches Some(s) ==> name_query(self.0@) == Some(s@),
            q is None ==> name_query(self.0@) is None,
    {
        match u32_from_hex(self.0.as_str()) {
            Some(dig) => Some(
                String::from_str("select name from lexindex where lexcode='").concat(hex8_string(dig).as_str()).concat(
                    "';",
                ),
            ),
            None => None,
        }
    }
}

/// The code with which a room asks for words names the same lexicon in the name query:
/// an eight-digit code reads back as itself.
pub proof fn law_room_code_names_itself(code: u32)
    ensures
        name_query(hex_fixed(code as nat, 8)) == Some(
            "select name from lexindex where lexcode='"@ + hex_fixed(code as nat, 8) + "';"@,
        ),
{
    lemma_hex8_roundtrip(code);
}

} // verus!
