//! The get/fetch abstraction over category streams, and the in-memory
//! substitute getter used by tests.

use vstd::prelude::*;

use crate::messaging::MessageData;
use crate::MAX_POSITION;

verus! {

/// The getter could not obtain messages; carries a description of the
/// underlying cause.
#[derive(Debug)]
pub enum GetError {
    DataError(String),
}

/// The global positions of a batch, in batch order.
pub open spec fn positions_of(s: Seq<MessageData>) -> Seq<u64> {
    s.map_values(|m: MessageData| m.global_position)
}

/// Each element is strictly greater than every element before it.
pub open spec fn strictly_increasing(s: Seq<u64>) -> bool {
    forall|i: int, j: int| 0 <= i < j < s.len() ==> s[i] < s[j]
}

/// Addition on counters that stops at the top of `u64` instead of wrapping.
pub open spec fn sat_add(a: nat, b: nat) -> u64 {
    if a + b >= u64::MAX {
        u64::MAX
    } else {
        (a + b) as u64
    }
}

/// Relies on `core::mem::replace`: moves `src` into `dest` and returns the
/// value `dest` held before.
pub assume_specification<T>[ core::mem::replace ](dest: &mut T, src: T) -> (r: T)
    ensures
        r == *old(dest),
        *final(dest) == src,
;

/// In a strictly increasing sequence whose entries start at one, the entry at
/// index `j` is at least `j + 1`.
pub proof fn lemma_increasing_lower_bound(q: Seq<u64>, j: int)
    requires
        strictly_increasing(q),
        forall|i: int| 0 <= i < q.len() ==> 1 <= #[trigger] q[i],
        0 <= j < q.len(),
    ensures
        q[j] >= j + 1,
    decreases j,
{
    if j > 0 {
        lemma_increasing_lower_bound(q, j - 1);
    }
}

/// Telemetry taps of a getter: how often a batch was requested and how many
/// messages came back over the getter's lifetime.
///
/// `telemetry_model` is the counter pair `(get_count, get_messages_count)`
/// where a getter keeps one locally, and `None` where the counts are not
/// observable (the store-backed getter keeps none).
pub trait GetTelemetry {
    spec fn telemetry_model(&self) -> Option<(u64, u64)>;

    fn get_count(&self) -> (r: u64)
        ensures
            self.telemetry_model() matches Some(t) ==> r == t.0,
    ;

    fn record_get(&mut self)
        ensures
            old(self).telemetry_model() matches Some(t) ==> final(self).telemetry_model() == Some(
                (sat_add(t.0 as nat, 1), t.1),
            ),
    ;

    fn get_messages_count(&self) -> (r: u64)
        ensures
            self.telemetry_model() matches Some(t) ==> r == t.1,
    ;

    fn record_got_messages(&mut self, messages: &[MessageData])
        ensures
            old(self).telemetry_model() matches Some(t) ==> final(self).telemetry_model() == Some(
                (t.0, sat_add(t.1 as nat, messages@.len())),
            ),
    ;
}

/// Fetches a batch of messages for a category starting at a given global
/// position.
///
/// `queue_model` is the sequence of queued global positions where the getter
/// is an in-memory substitute, and `None` where the batch comes from an
/// external store and is not predictable from local state.
pub trait Get: GetTelemetry {
    spec fn queue_model(&self) -> Option<Seq<u64>>;

    /// Fetch the next batch at or after `position`. Returned messages ascend
    /// strictly, start at or after the requested position, and stay below
    /// [`MAX_POSITION`]. A substitute getter returns its queued suffix from
    /// index `position` and drains its queue.
    fn get(&mut self, position: i64) -> (r: Result<Vec<MessageData>, GetError>)
        requires
            0 <= position,
        ensures
            r matches Ok(msgs) ==> strictly_increasing(positions_of(msgs@)) && (forall|i: int|
                0 <= i < msgs@.len() ==> position as int <= #[trigger] msgs@[i].global_position as int
                    && msgs@[i].global_position < MAX_POSITION),
            old(self).queue_model() matches Some(q) ==> {
                &&& r matches Ok(msgs) && positions_of(msgs@) == q.skip(
                    vstd::math::min(position as int, q.len() as int),
                )
                &&& final(self).queue_model() == Some(Seq::<u64>::empty())
                &&& (old(self).telemetry_model() matches Some(t) ==> final(self).telemetry_model()
                    == Some(
                    (
                        sat_add(t.0 as nat, 1),
                        sat_add(
                            t.1 as nat,
                            (q.len() - vstd::math::min(position as int, q.len() as int)) as nat,
                        ),
                    ),
                ))
            },
            old(self).queue_model() is None ==> final(self).queue_model() is None,
    ;
}

/// An in-memory getter for tests: holds a queue of messages, returns the
/// queued suffix from the requested position on `get`, and counts its
/// telemetry locally.
#[derive(Debug)]
pub struct SubstituteGetter {
    category: String,
    messages: Vec<MessageData>,
    gets: u64,
    got_messages: u64,
    last_position: Option<i64>,
}

impl SubstituteGetter {
    /// The queued global positions, in queue order.
    pub closed spec fn queue(&self) -> Seq<u64> {
        positions_of(self.messages@)
    }

    /// The counter pair `(get_count, get_messages_count)`.
    pub closed spec fn counts(&self) -> (u64, u64) {
        (self.gets, self.got_messages)
    }

    /// The position handed to the most recent `get` call, if any.
    pub closed spec fn last_requested(&self) -> Option<i64> {
        self.last_position
    }

    /// The queue mirrors a category stream: positions ascend strictly, start
    /// at one or later, and stay below [`MAX_POSITION`].
    #[verifier::type_invariant]
    pub closed spec fn wf(&self) -> bool {
        &&& strictly_increasing(self.queue())
        &&& forall|i: int| 0 <= i < self.queue().len() ==> 1 <= #[trigger] self.queue()[i]
            < MAX_POSITION
    }

    /// A fresh substitute getter with an empty queue and zeroed telemetry.
    pub fn new(category: &str) -> (g: SubstituteGetter)
        ensures
            g.queue() == Seq::<u64>::empty(),
            g.counts() == (0u64, 0u64),
            g.last_requested() is None,
    {
        SubstituteGetter {
            category: category.to_owned(),
            messages: Vec::new(),
            gets: 0,
            got_messages: 0,
            last_position: None,
        }
    }

    /// The position handed to the most recent fetch, for tests that assert
    /// where a consumer resumed.
    pub fn last_requested_position(&self) -> (r: Option<i64>)
        ensures
            r == self.last_requested(),
    {
        self.last_position
    }

    /// Append messages to the queue. The batch must keep the queue shaped
    /// like a category stream: appended positions ascend strictly, continue
    /// above the queued ones, and lie in `[1, MAX_POSITION)`.
    pub fn queue_messages(&mut self, messages: &[MessageData])
        requires
            strictly_increasing(old(self).queue() + positions_of(messages@)),
            forall|i: int| 0 <= i < messages@.len() ==> 1 <= #[trigger] messages@[i].global_position
                < MAX_POSITION,
        ensures
            final(self).queue() == old(self).queue() + positions_of(messages@),
            final(self).counts() == old(self).counts(),
            final(self).last_requested() == old(self).last_requested(),
    {
        proof {
            use_type_invariant(&*self);
        }
        let ghost q0 = self.queue();
        let taken = core::mem::replace(
            self,
            (SubstituteGetter {
                category: String::new(),
                messages: Vec::new(),
                gets: 0,
                got_messages: 0,
                last_position: None,
            }),
        );
        let SubstituteGetter { category, messages: mut queued, gets, got_messages, last_position } =
            taken;
        let mut i: usize = 0;
        while i < messages.len()
            invariant
                0 <= i <= messages@.len(),
                positions_of(queued@) == q0 + positions_of(messages@.take(i as int)),
                strictly_increasing(q0 + positions_of(messages@)),
                forall|k: int| 0 <= k < messages@.len() ==> 1 <= #[trigger] messages@[k].global_position
                    < MAX_POSITION,
                forall|k: int| 0 <= k < q0.len() ==> 1 <= #[trigger] q0[k] < MAX_POSITION,
            decreases messages@.len() - i,
        {
            let ghost prev = queued@;
            queued.push(messages[i]);
            proof {
                assert(queued@ == prev.push(messages@[i as int]));
                assert(messages@.take(i + 1) =~= messages@.take(i as int).push(messages@[i as int]));
                assert(positions_of(prev.push(messages@[i as int])) =~= positions_of(prev).push(
                    messages@[i as int].global_position,
                ));
                assert(positions_of(messages@.take(i as int).push(messages@[i as int])) =~=
                    positions_of(messages@.take(i as int)).push(
                    messages@[i as int].global_position,
                ));
                assert(positions_of(queued@) =~= q0 + positions_of(messages@.take(i + 1)));
            }
            i += 1;
        }
        proof {
            assert(messages@.take(messages@.len() as int) =~= messages@);
            assert(positions_of(queued@) =~= q0 + positions_of(messages@));
        }
        *self = SubstituteGetter { category, messages: queued, gets, got_messages, last_position };
    }
}

impl GetTelemetry for SubstituteGetter {
    open spec fn telemetry_model(&self) -> Option<(u64, u64)> {
        Some(self.counts())
    }

    fn get_count(&self) -> (r: u64) {
        self.gets
    }

    fn record_get(&mut self)
        ensures
            final(self).queue() == old(self).queue(),
            final(self).last_requested() == old(self).last_requested(),
    {
        proof {
            use_type_invariant(&*self);
        }
        if self.gets < u64::MAX {
            self.gets = self.gets + 1;
        }
    }

    fn get_messages_count(&self) -> (r: u64) {
        self.got_messages
    }

    fn record_got_messages(&mut self, messages: &[MessageData])
        ensures
            final(self).queue() == old(self).queue(),
            final(self).last_requested() == old(self).last_requested(),
    {
        proof {
            use_type_invariant(&*self);
        }
        let fetched: usize = messages.len();
        if self.got_messages as u128 + fetched as u128 <= u64::MAX as u128 {
            self.got_messages = self.got_messages + fetched as u64;
        } else {
            self.got_messages = u64::MAX;
        }
    }
}

impl Get for SubstituteGetter {
    open spec fn queue_model(&self) -> Option<Seq<u64>> {
        Some(self.queue())
    }

    fn get(&mut self, position: i64) -> (r: Result<Vec<MessageData>, GetError>)
        ensures
            final(self).last_requested() == Some(position),
    {
        proof {
            use_type_invariant(&*self);
        }
        let ghost q = self.queue();
        let taken = core::mem::replace(
            self,
            (SubstituteGetter {
                category: String::new(),
                messages: Vec::new(),
                gets: 0,
                got_messages: 0,
                last_position: None,
            }),
        );
        let SubstituteGetter { category, messages, gets, got_messages, last_position: _ } = taken;
        let len: usize = messages.len();
        let start: usize = if position as u64 >= len as u64 {
            len
        } else {
            position as usize
        };
        let mut out: Vec<MessageData> = Vec::new();
        let mut idx: usize = start;
        while idx < len
            invariant
                start <= idx <= len,
                len == messages@.len(),
                positions_of(out@) =~= positions_of(messages@).subrange(start as int, idx as int),
                out@.len() == idx - start,
                forall|k: int| 0 <= k < out@.len() ==> out@[k] == messages@[start + k],
            decreases len - idx,
        {
            out.push(messages[idx]);
            proof {
                assert(positions_of(out@) =~= positions_of(messages@).subrange(
                    start as int,
                    idx + 1,
                ));
            }
            idx += 1;
        }
        let new_gets: u64 = if gets < u64::MAX {
            gets + 1
        } else {
            gets
        };
        let fetched: usize = out.len();
        let new_got: u64 = if got_messages as u128 + fetched as u128 <= u64::MAX as u128 {
            got_messages + fetched as u64
        } else {
            u64::MAX
        };
        *self = SubstituteGetter {
            category,
            messages: Vec::new(),
            gets: new_gets,
            got_messages: new_got,
            last_position: Some(position),
        };
        proof {
            assert(q == positions_of(messages@));
            assert(vstd::math::min(position as int, q.len() as int) == start as int);
            assert(q.skip(start as int) =~= q.subrange(start as int, q.len() as int));
            assert(positions_of(out@) =~= q.subrange(start as int, q.len() as int));
            assert(positions_of(out@) =~= q.skip(vstd::math::min(position as int, q.len() as int)));
            assert forall|k: int| 0 <= k < out@.len() implies position as int
                <= #[trigger] out@[k].global_position as int && out@[k].global_position
                < MAX_POSITION by {
                lemma_increasing_lower_bound(q, start + k);
                assert(out@[k].global_position == q[start + k]);
            }
            assert(strictly_increasing(positions_of(out@)));
        }
        Ok(out)
    }
}

} // verus!
