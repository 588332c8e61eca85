//! The production getter: fetches category messages from the external
//! message store through a session, validating what the store hands back.

use vstd::prelude::*;

use crate::messaging::get::{
    positions_of, strictly_increasing, Get, GetError, GetTelemetry,
};
use crate::messaging::MessageData;
use crate::session::{error_text, Session, SessionError};
use crate::settings::Settings;
use crate::MAX_POSITION;

verus! {

/// A batch shaped the way a well-behaved store answers a category fetch:
/// global positions strictly ascending, each at or past the requested
/// position and below the top of the signed range, and no more rows than
/// the batch limit allows.
pub open spec fn valid_rows(rows: Seq<i64>, position: i64, limit: Option<i64>) -> bool {
    &&& forall|k: int| 0 <= k < rows.len() ==> position <= #[trigger] rows[k] && rows[k] < i64::MAX
    &&& forall|k: int, l: int| 0 <= k < l < rows.len() ==> #[trigger] rows[k] < #[trigger] rows[l]
    &&& match limit {
        Some(bound) => rows.len() <= bound,
        None => true,
    }
}

/// Map one batch of `global_position` rows into messages, validating what
/// the store handed back: the batch is accepted exactly when it is shaped
/// like a category batch, and each accepted message carries its row's
/// position.
#[verifier::loop_isolation(false)]
pub fn messages_from_rows(rows: Vec<i64>, position: i64, limit: Option<i64>) -> (r: Result<
    Vec<MessageData>,
    GetError,
>)
    requires
        0 <= position,
        limit matches Some(bound) ==> bound >= 0,
    ensures
        r is Ok <==> valid_rows(rows@, position, limit),
        r matches Ok(m) ==> positions_of(m@) == rows@.map_values(|p: i64| p as u64),
{
    if let Some(bound) = limit {
        if rows.len() as u64 > bound as u64 {
            return Err(GetError::DataError("more rows than the batch size".to_owned()));
        }
    }

    let mut messages: Vec<MessageData> = Vec::new();
    let mut i: usize = 0;
    while i < rows.len()
        invariant
            0 <= i <= rows@.len(),
            messages@.len() == i,
            forall|k: int| 0 <= k < i ==> position <= #[trigger] rows@[k] && rows@[k] < i64::MAX,
            forall|k: int, l: int| 0 <= k < l < i ==> #[trigger] rows@[k] < #[trigger] rows@[l],
            forall|k: int| 0 <= k < i ==> #[trigger] messages@[k].global_position == rows@[k] as u64,
        decreases rows@.len() - i,
    {
        let row_position = rows[i];
        if row_position < position || row_position == i64::MAX {
            return Err(GetError::DataError("a position out of range".to_owned()));
        }
        if i > 0 {
            let previous = messages[i - 1].global_position;
            if row_position as u64 <= previous {
                proof {
                    assert(rows@[i as int] <= rows@[i - 1]);
                }
                return Err(GetError::DataError("positions out of order".to_owned()));
            }
            proof {
                assert(rows@[i - 1] < rows@[i as int]);
                assert(forall|k: int| 0 <= k < i ==> #[trigger] rows@[k] <= rows@[i - 1]);
            }
        }
        messages.push(MessageData { global_position: row_position as u64 });
        i += 1;
    }
    proof {
        assert(positions_of(messages@) =~= rows@.map_values(|p: i64| p as u64));
    }
    Ok(messages)
}

/// Misconfiguration of the getter: the store session could not be
/// established.
#[derive(Debug)]
pub enum CategoryError {
    SessionError(SessionError),
}

/// Fetches batches of messages for one category from the external store,
/// honoring the settings' batch size, correlation filter, consumer-group
/// partition and server-side condition.
pub struct Category {
    category: String,
    settings: Settings,
    session: Session,
}

impl Category {
    /// The category this getter fetches.
    pub closed spec fn category_model(&self) -> Seq<char> {
        self.category@
    }

    /// The configured upper bound on messages per fetch, if any.
    pub closed spec fn batch_limit(&self) -> Option<u64> {
        self.settings.batch_size
    }

    /// A getter over a fresh session with default settings; fails when the
    /// session cannot be established.
    pub fn build(category: &str) -> (r: Result<Category, CategoryError>)
        ensures
            r matches Ok(c) ==> c.category_model() == category@ && c.batch_limit() is None,
    {
        Category::build_params(category, Settings::build())
    }

    /// A getter over a fresh session with the given settings; fails when
    /// the session cannot be established.
    pub fn build_params(category: &str, settings: Settings) -> (r: Result<Category, CategoryError>)
        ensures
            r matches Ok(c) ==> c.category_model() == category@ && c.batch_limit()
                == settings.batch_size,
    {
        match Session::build() {
            Ok(session) => Ok(Category { category: category.to_owned(), settings, session }),
            Err(error) => Err(CategoryError::SessionError(error)),
        }
    }
}

impl GetTelemetry for Category {
    open spec fn telemetry_model(&self) -> Option<(u64, u64)> {
        None
    }

    fn get_count(&self) -> (r: u64) {
        0
    }

    fn record_get(&mut self) {
    }

    fn get_messages_count(&self) -> (r: u64) {
        0
    }

    fn record_got_messages(&mut self, messages: &[MessageData]) {
    }
}

impl Get for Category {
    open spec fn queue_model(&self) -> Option<Seq<u64>> {
        None
    }

    /// Issue one `get_category_messages` query and map each returned row
    /// into a message by its global position. A batch the store must never
    /// produce — positions out of `[position, i64::MAX)`, positions out of
    /// order, or more rows than the configured batch size — is reported as
    /// a `DataError` rather than handed on.
    #[verifier::loop_isolation(false)]
    fn get(&mut self, position: i64) -> (r: Result<Vec<MessageData>, GetError>)
        ensures
            old(self).batch_limit() matches Some(bound) ==> (r matches Ok(msgs) ==> msgs@.len()
                <= bound),
    {
        let batch_size: Option<i64> = match self.settings.batch_size {
            Some(size) => Some(
                if size > MAX_POSITION {
                    MAX_POSITION as i64
                } else {
                    size as i64
                },
            ),
            None => None,
        };
        let consumer_group_member: Option<i64> = match self.settings.consumer_group_member {
            Some(member) => Some(
                if member > MAX_POSITION {
                    MAX_POSITION as i64
                } else {
                    member as i64
                },
            ),
            None => None,
        };
        let consumer_group_size: Option<i64> = match self.settings.consumer_group_size {
            Some(size) => Some(
                if size > MAX_POSITION {
                    MAX_POSITION as i64
                } else {
                    size as i64
                },
            ),
            None => None,
        };

        let rows = match self.session.get_category_messages(
            &self.category,
            position,
            batch_size,
            &self.settings.correlation,
            consumer_group_member,
            consumer_group_size,
            &self.settings.condition,
        ) {
            Ok(rows) => rows,
            Err(SessionError::PostgresError(cause)) => {
                return Err(GetError::DataError(error_text(&cause)));
            },
        };

        let ghost rows_view = rows@;
        let checked = messages_from_rows(rows, position, batch_size);
        proof {
            if checked is Ok {
                let m = checked->Ok_0@;
                assert(valid_rows(rows_view, position, batch_size));
                assert(positions_of(m) == rows_view.map_values(|p: i64| p as u64));
                assert forall|k: int|
                    0 <= k < m.len() implies position as int <= #[trigger] m[k].global_position as int
                    && m[k].global_position < MAX_POSITION by {
                    assert(positions_of(m)[k] == rows_view.map_values(|p: i64| p as u64)[k]);
                    assert(m[k].global_position == rows_view[k] as u64);
                    assert(position <= rows_view[k] && rows_view[k] < i64::MAX);
                }
                assert forall|k: int, l: int|
                    0 <= k < l < positions_of(m).len() implies #[trigger] positions_of(m)[k]
                    < #[trigger] positions_of(m)[l] by {
                    assert(positions_of(m)[k] == rows_view.map_values(|p: i64| p as u64)[k]);
                    assert(positions_of(m)[l] == rows_view.map_values(|p: i64| p as u64)[l]);
                    assert(m[k].global_position == rows_view[k] as u64);
                    assert(m[l].global_position == rows_view[l] as u64);
                    assert(rows_view[k] < rows_view[l]);
                    assert(position <= rows_view[k]);
                }
                assert(strictly_increasing(positions_of(m)));
            }
        }
        checked
    }
}

} // verus!
