use vstd::prelude::*;
use crate::utils::text::{first_index_of, join_strings, seq_join, string_views};

verus! {

pub const EMOJI_NAME_SEPARATOR: &'static str = ", ";

/// The position, among a server's emotes given by name, of the first one
/// named `emoji_name`, if any.
pub fn find_emoji_by_name(emoji_names: &Vec<String>, emoji_name: &String) -> (r: Option<usize>)
    ensures
        match r {
            Some(i) => i < emoji_names@.len() && emoji_names@[i as int]@ == emoji_name@ && forall|
                j: int,
            | 0 <= j < i ==> emoji_names@[j]@ != emoji_name@,
            None => forall|j: int|
                0 <= j < emoji_names@.len() ==> emoji_names@[j]@ != emoji_name@,
        },
{
    first_index_of(emoji_names, emoji_name)
}

/// The names of a server's emotes, separated by a comma and a space.
pub fn emoji_names_string(emoji_names: &Vec<String>) -> (r: String)
    ensures
        r@ == seq_join(string_views(emoji_names@), EMOJI_NAME_SEPARATOR@),
{
    join_strings(emoji_names, EMOJI_NAME_SEPARATOR)
}

} // verus!
