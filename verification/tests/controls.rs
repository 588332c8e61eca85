use std::time::Duration;

use rusty_eventide::back_off::constant::ConstantBackOff;
use rusty_eventide::back_off::BackOff;
use rusty_eventide::controls::back_off::OnNoMessageDataCount;
use rusty_eventide::controls::category;
use rusty_eventide::controls::messages;

#[test]
fn should_run() {
    // The store-backed position store needs a live message store; nothing to
    // exercise without one.
}

#[test]
fn example_messages_start_at_the_beginning_of_a_stream() {
    let messages = messages::example();

    assert_eq!(messages.len(), 2);
    assert_eq!(messages[0].global_position, messages::beginning_global_position());
    assert_eq!(messages[1].global_position, 2);
}

#[test]
fn unique_categories_are_thirty_characters_and_fresh() {
    let first = category::unique_category();
    let second = category::unique_category();

    assert_eq!(first.chars().count(), 30);
    assert_eq!(second.chars().count(), 30);
    assert_ne!(first, second);
}

#[test]
fn example_message_category_carries_stem_and_tail() {
    let name = rusty_eventide::controls::messages::category::example();

    assert_eq!(name.chars().count(), 22);
    assert!(name.starts_with("test"));
    assert!(name.ends_with("XX"));
}

#[test]
fn stream_names_join_types_with_plus() {
    let no_types: Vec<String> = Vec::new();
    let name = rusty_eventide::controls::messages::stream_name::stream_name(
        "account".to_owned(),
        None,
        &no_types,
    );
    assert_eq!(name, "account");

    let types = vec!["command".to_owned(), "snapshot".to_owned()];
    let name = rusty_eventide::controls::messages::stream_name::stream_name(
        "account".to_owned(),
        None,
        &types,
    );
    assert_eq!(name, "accountcommand+snapshot");
}

#[test]
fn position_streams_hang_off_the_category() {
    let name = rusty_eventide::position_store::postgres::stream_name("account");
    assert_eq!(name, "account:position");
}

#[test]
fn decimal_rendering_matches_the_usual_digits() {
    assert_eq!(rusty_eventide::position_store::postgres::u64_to_decimal(0), "0");
    assert_eq!(rusty_eventide::position_store::postgres::u64_to_decimal(7), "7");
    assert_eq!(rusty_eventide::position_store::postgres::u64_to_decimal(120), "120");
    assert_eq!(
        rusty_eventide::position_store::postgres::u64_to_decimal(18446744073709551615),
        "18446744073709551615"
    );
}

#[test]
fn constant_back_off_ignores_the_message_count() {
    let mut back_off = ConstantBackOff::new_with_duration(Duration::from_millis(8));

    assert_eq!(back_off.duration(0), Duration::from_millis(8));
    assert_eq!(back_off.duration(10), Duration::from_millis(8));

    let mut quick = ConstantBackOff::new();
    assert_eq!(quick.duration(5), Duration::from_millis(1));

    let mut production = ConstantBackOff::build();
    assert_eq!(production.duration(0), Duration::from_millis(100));
}

#[test]
fn yield_sensitive_back_off_waits_only_when_idle() {
    let mut back_off = OnNoMessageDataCount::new(Duration::from_millis(20));

    assert_eq!(back_off.duration(3), Duration::ZERO);
    assert_eq!(back_off.duration(0), Duration::from_millis(20));
}

#[test]
fn failing_handlers_report_their_forced_error() {
    let message = rusty_eventide::controls::handler::FailingHandlerError::Forced.message();
    assert_eq!(message, "Forced an error to happen");
}
