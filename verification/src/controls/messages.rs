//! Example messages shaped like a category stream.

pub mod category;
pub mod stream_name;

use vstd::prelude::*;

use crate::messaging::MessageData;

verus! {

/// The first global position a category stream assigns.
pub fn beginning_global_position() -> (p: u64)
    ensures
        p == 1,
{
    1
}

/// Two consecutive messages starting at the beginning of a stream: the
/// smallest batch that still exercises ordering.
pub fn example() -> (v: Vec<MessageData>)
    ensures
        v@.len() == 2,
        v@[0].global_position == 1,
        v@[1].global_position == 2,
{
    let starting_position = beginning_global_position();
    vec![
        MessageData { global_position: starting_position },
        MessageData { global_position: starting_position + 1 },
    ]
}

} // verus!
