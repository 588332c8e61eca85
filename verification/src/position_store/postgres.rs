//! The store-backed position store: position checkpoints are `Recorded`
//! events in a stream derived from the category's identity.

use vstd::prelude::*;

use vstd::string::StringExecFns;

use crate::position_store::{PositionStore, PositionStoreTelemetry};
use crate::session::Session;
use crate::MAX_POSITION;

verus! {

/// The decimal digit for one value below ten.
pub open spec fn digit_char(d: nat) -> char {
    if d == 0 {
        '0'
    } else if d == 1 {
        '1'
    } else if d == 2 {
        '2'
    } else if d == 3 {
        '3'
    } else if d == 4 {
        '4'
    } else if d == 5 {
        '5'
    } else if d == 6 {
        '6'
    } else if d == 7 {
        '7'
    } else if d == 8 {
        '8'
    } else {
        '9'
    }
}

/// The decimal rendering of a number, most significant digit first.
pub open spec fn decimal_digits(n: nat) -> Seq<char>
    decreases n,
{
    if n < 10 {
        seq![digit_char(n)]
    } else {
        decimal_digits(n / 10).push(digit_char(n % 10))
    }
}

/// One decimal digit as text.
fn digit_str(d: u64) -> (s: &'static str)
    requires
        d < 10,
    ensures
        s@ == seq![digit_char(d as nat)],
{
    proof {
        reveal_strlit("0");
        reveal_strlit("1");
        reveal_strlit("2");
        reveal_strlit("3");
        reveal_strlit("4");
        reveal_strlit("5");
        reveal_strlit("6");
        reveal_strlit("7");
        reveal_strlit("8");
        reveal_strlit("9");
    }
    if d == 0 {
        "0"
    } else if d == 1 {
        "1"
    } else if d == 2 {
        "2"
    } else if d == 3 {
        "3"
    } else if d == 4 {
        "4"
    } else if d == 5 {
        "5"
    } else if d == 6 {
        "6"
    } else if d == 7 {
        "7"
    } else if d == 8 {
        "8"
    } else {
        "9"
    }
}

/// A number rendered in decimal.
pub fn u64_to_decimal(value: u64) -> (s: String)
    ensures
        s@ == decimal_digits(value as nat),
    decreases value,
{
    if value < 10 {
        digit_str(value).to_owned()
    } else {
        let mut s = u64_to_decimal(value / 10);
        s.append(digit_str(value % 10));
        s
    }
}

/// The JSON body of a position checkpoint: an object recording the
/// position.
pub open spec fn position_record_text(n: nat) -> Seq<char> {
    "{\"position\":"@ + decimal_digits(n) + "}"@
}

/// The conventional name of a category's position stream.
pub fn stream_name(category: &str) -> (s: String)
    ensures
        s@ == category@ + ":position"@,
{
    let mut name = category.to_owned();
    name.append(":position");
    name
}

/// The position to resume from, given what the position stream recorded:
/// the recorded value where it is a position, else one — the first position
/// a category stream assigns.
pub fn resume_from(recorded: Option<i64>) -> (r: u64)
    ensures
        r == match recorded {
            Some(p) => if p >= 1 {
                p as u64
            } else {
                1u64
            },
            None => 1u64,
        },
        1 <= r <= MAX_POSITION,
{
    match recorded {
        Some(position) => if position >= 1 {
            position as u64
        } else {
            1
        },
        None => 1,
    }
}

/// The JSON body of the checkpoint that records a position.
pub fn checkpoint_body(position: u64) -> (s: String)
    ensures
        s@ == position_record_text(position as nat),
{
    let digits = u64_to_decimal(position);
    let mut data = "{\"position\":".to_owned();
    data.append(digits.as_str());
    data.append("}");
    data
}

/// Relies on `uuid::Uuid::new_v4` rendered hyphenated: a fresh random
/// message identifier; the value is random, so nothing is promised of it.
#[verifier::external_body]
fn new_message_id() -> String {
    format!("{}", uuid::Uuid::new_v4().to_hyphenated())
}

/// A position store over the external message store: `put` appends a
/// `Recorded` event to the category's position stream, `get` reads the last
/// one back.
///
/// The store's answers come over the wire, so beyond their range nothing
/// can be promised of the values; persistence is best-effort by design (the
/// consumer tolerates the loss of recent checkpoints).
pub struct PostgresPositionStore {
    category: String,
    stream: String,
    session: Option<Session>,
}

impl PostgresPositionStore {
    /// The category whose progress this store records.
    pub closed spec fn category_name(&self) -> Seq<char> {
        self.category@
    }

    /// The stream the checkpoints go to.
    pub closed spec fn position_stream(&self) -> Seq<char> {
        self.stream@
    }

    /// A position store for the category. A session that cannot be opened
    /// leaves the store inert: `get` answers the default and `put` records
    /// nothing, which best-effort durability tolerates.
    pub fn build(category: &str) -> (s: PostgresPositionStore)
        ensures
            s.category_name() == category@,
            s.position_stream() == category@ + ":position"@,
    {
        let stream = stream_name(category);
        let session = match Session::build() {
            Ok(session) => Some(session),
            Err(_) => None,
        };
        PostgresPositionStore { category: category.to_owned(), stream, session }
    }
}

impl PositionStoreTelemetry for PostgresPositionStore {
    open spec fn counts_model(&self) -> Option<(u64, u64)> {
        None
    }

    fn get_count(&self) -> (r: u64) {
        0
    }

    fn record_get(&mut self) {
    }

    fn put_count(&self) -> (r: u64) {
        0
    }

    fn record_put(&mut self) {
    }
}

impl PositionStore for PostgresPositionStore {
    open spec fn stored_model(&self) -> Option<u64> {
        None
    }

    /// The position recorded in the last checkpoint of the position stream,
    /// or one — the first position a category stream assigns — where the
    /// stream holds none or the session is unavailable.
    fn get(&mut self) -> (r: u64)
        ensures
            1 <= r,
    {
        let recorded = match &mut self.session {
            Some(session) => match session.last_recorded_position(&self.stream) {
                Ok(recorded) => recorded,
                Err(_) => None,
            },
            None => None,
        };
        resume_from(recorded)
    }

    /// Append a `Recorded` event carrying the position to the position
    /// stream bound at construction; a failure is tolerated as a lost
    /// checkpoint (best-effort durability).
    fn put(&mut self, position: u64) {
        let data = checkpoint_body(position);
        proof {
            assert(data@ == position_record_text(position as nat));
        }
        let id = new_message_id();
        let message_type = "Recorded".to_owned();
        match &mut self.session {
            Some(session) => {
                let _ = session.write_message(&id, &self.stream, &message_type, &data);
            },
            None => {},
        }
    }
}

} // verus!
