//! Configuration knobs consumed by the getter, the position store and the
//! consumer engine.

use vstd::prelude::*;

verus! {

/// How many successfully handled messages pass between two position flushes
/// when the user does not choose an interval.
pub const POSITION_UPDATE_INTERVAL_DEFAULT: u64 = 100;

/// Connection string used when the user does not supply one.
pub const MESSAGE_DB_URL_DEFAULT: &'static str =
    "postgres://message_store@localhost/message_store";

/// Configuration record for a consumer and its collaborators.
///
/// The consumer engine reads only `position_update_interval`; the category
/// getter reads `batch_size`, `correlation`, `consumer_group_member`,
/// `consumer_group_size` and `condition`; the session reads
/// `message_db_url`.
#[derive(Debug)]
pub struct Settings {
    pub position_update_interval: u64,
    pub message_db_url: String,
    pub batch_size: Option<u64>,
    pub correlation: Option<String>,
    pub consumer_group_member: Option<u64>,
    pub consumer_group_size: Option<u64>,
    pub condition: Option<String>,
}

impl Settings {
    /// The default settings: flush every hundred handled messages, connect to
    /// the conventional local store, and leave every fetch filter unset.
    pub fn new() -> (s: Settings)
        ensures
            s.position_update_interval == POSITION_UPDATE_INTERVAL_DEFAULT,
            s.message_db_url@ == MESSAGE_DB_URL_DEFAULT@,
            s.batch_size is None,
            s.correlation is None,
            s.consumer_group_member is None,
            s.consumer_group_size is None,
            s.condition is None,
    {
        Settings {
            position_update_interval: POSITION_UPDATE_INTERVAL_DEFAULT,
            message_db_url: MESSAGE_DB_URL_DEFAULT.to_owned(),
            batch_size: None,
            correlation: None,
            consumer_group_member: None,
            consumer_group_size: None,
            condition: None,
        }
    }

    /// The settings a production consumer starts from; the same defaults as
    /// [`Settings::new`].
    pub fn build() -> (s: Settings)
        ensures
            s.position_update_interval == POSITION_UPDATE_INTERVAL_DEFAULT,
            s.message_db_url@ == MESSAGE_DB_URL_DEFAULT@,
            s.batch_size is None,
            s.correlation is None,
            s.consumer_group_member is None,
            s.consumer_group_size is None,
            s.condition is None,
    {
        Settings::new()
    }
}

} // verus!
