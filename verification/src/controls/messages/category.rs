//! Example category names for messages written during tests.

use vstd::prelude::*;

use vstd::string::StringExecFns;

use crate::controls::category::random_alphanumeric;
use crate::controls::messages::stream_name::stream_name;

verus! {

/// A fresh example category: the fixed stem, a random middle and a fixed
/// tail, with no stream types appended.
pub fn example() -> (s: String)
    ensures
        s@.len() == 22,
{
    let types: Vec<String> = Vec::new();
    example_category(None, &types, true)
}

/// The category a test works under: the given stem or `test`, randomized on
/// request so runs cannot collide, with the type list appended as a stream
/// name.
fn example_category(category: Option<&str>, types: &Vec<String>, randomize: bool) -> (s: String)
    ensures
        category is None && randomize && types@.len() == 0 ==> s@.len() == 22,
{
    let mut name: String = match category {
        Some(stem) => stem.to_owned(),
        None => "test".to_owned(),
    };
    if randomize {
        let random_part = random_alphanumeric(16);
        name.append(random_part.as_str());
        name.append("XX");
    }
    proof {
        reveal_strlit("test");
        reveal_strlit("XX");
    }
    let stream_id: Option<&str> = None;
    stream_name(name, stream_id, types)
}

} // verus!
