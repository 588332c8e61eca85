use rusty_eventide::controls::messages;
use rusty_eventide::messaging::get::{Get, GetTelemetry, SubstituteGetter};

#[test]
fn get_should_respond_to_fetch_with_queued_messages() {
    let messages = messages::example();
    let mut get = SubstituteGetter::new("my_category");
    get.queue_messages(&messages);
    let returned_messages = get.get(0).expect("get to work");
    assert_eq!(messages, returned_messages);
}

#[test]
fn should_respond_with_no_messages_when_none_queued() {
    let mut get = SubstituteGetter::new("my_category");
    let returned_messages = get.get(0).expect("get to work");
    assert!(returned_messages.len() == 0);
}

#[test]
fn should_respond_to_fetch_with_queued_messages_respecting_position_as_index() {
    let messages = messages::example();
    let mut get = SubstituteGetter::new("my_category");
    get.queue_messages(&messages);
    let returned_messages = get.get(1).expect("get to work");
    assert_eq!(messages[1..], returned_messages);
}

#[test]
fn should_record_a_count_for_each_get() {
    let mut get = SubstituteGetter::new("my_category");

    assert_eq!(get.get_count(), 0);
    get.get(0).expect("get to work");
    assert_eq!(get.get_count(), 1);
    get.get(0).expect("get to work");
    assert_eq!(get.get_count(), 2);
}

#[test]
fn should_record_message_count_for_each_get() {
    let messages = messages::example();
    let messages_len = messages.len() as u64;
    let mut get = SubstituteGetter::new("my_category");

    assert_eq!(get.get_messages_count(), 0);
    get.queue_messages(&messages);
    let _ = get.get(0);
    assert_eq!(get.get_messages_count(), messages_len);

    get.queue_messages(&messages);
    let _ = get.get(0);
    assert_eq!(get.get_messages_count(), messages_len * 2);

    get.queue_messages(&messages);
    let _ = get.get(0);
    assert_eq!(get.get_messages_count(), messages_len * 3);
}
