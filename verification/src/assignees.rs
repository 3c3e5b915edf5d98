//! The list of the people assigned to a work order, which is stored as a JSON
//! array of names.

use vstd::prelude::*;
use crate::text::{lowercase, opt_text, str_eq, texts_of, to_lowercase};

verus! {

/// The names that a text holds where it is a JSON array of strings, as
/// `serde_json::from_str` reads it into a `Vec<String>`; `None` for any other
/// text.
pub uninterp spec fn json_string_list(text: Seq<char>) -> Option<Seq<Seq<char>>>;

/// Calls `serde_json::from_str` for a `Vec<String>`. Trusted: what comes back
/// depends on the text alone, and an error of the crate is given as `None`.
#[verifier::external_body]
pub(crate) fn parse_string_list(text: &str) -> (names: Option<Vec<String>>)
    ensures
        match names {
            Some(list) => json_string_list(text@) == Some(texts_of(list@)),
            None => json_string_list(text@) is None,
        },
{
    serde_json::from_str::<Vec<String>>(text).ok()
}

/// Whether a name is among the names, case set aside.
pub open spec fn names_include(names: Seq<Seq<char>>, username: Seq<char>) -> bool {
    exists|i: int| 0 <= i < names.len() && lowercase(#[trigger] names[i]) == lowercase(username)
}

/// Whether a user is assigned according to a stored list: the list is a JSON
/// array of strings, and one of them is the user's name, case set aside. A
/// missing list, and one that is no such array, assign nobody.
pub open spec fn is_assigned(stored: Option<Seq<char>>, username: Seq<char>) -> bool {
    match stored {
        Some(text) => match json_string_list(text) {
            Some(names) => names_include(names, username),
            None => false,
        },
        None => false,
    }
}

/// Whether a name is among the names, case set aside.
pub fn includes_name(names: &Vec<String>, username: &str) -> (found: bool)
    ensures
        found == names_include(texts_of(names@), username@),
{
    let wanted = to_lowercase(username);
    let mut i: usize = 0;
    while i < names.len()
        invariant
            i <= names.len(),
            wanted@ == lowercase(username@),
            forall|j: int| 0 <= j < i ==> lowercase(#[trigger] texts_of(names@)[j]) != wanted@,
        decreases names.len() - i,
    {
        let name = to_lowercase(names[i].as_str());
        assert(texts_of(names@)[i as int] == names@[i as int]@);
        if str_eq(name.as_str(), wanted.as_str()) {
            return true;
        }
        i += 1;
    }
    false
}

/// Whether a user is assigned according to a stored list (see `is_assigned`).
pub fn assignees_include(stored: &Option<String>, username: &str) -> (found: bool)
    ensures
        found == is_assigned(opt_text(*stored), username@),
{
    match stored {
        None => false,
        Some(text) => match parse_string_list(text.as_str()) {
            None => false,
            Some(names) => includes_name(&names, username),
        },
    }
}

} // verus!
