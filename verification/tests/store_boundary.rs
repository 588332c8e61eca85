use rusty_eventide::messaging::get::GetError;
use rusty_eventide::messaging::postgres::messages_from_rows;
use rusty_eventide::position_store::postgres::{checkpoint_body, resume_from};

#[test]
fn well_shaped_rows_become_messages() {
    let rows = vec![3i64, 5, 9];
    let messages = messages_from_rows(rows, 3, None).expect("a well-shaped batch to be accepted");

    assert_eq!(messages.len(), 3);
    assert_eq!(messages[0].global_position, 3);
    assert_eq!(messages[1].global_position, 5);
    assert_eq!(messages[2].global_position, 9);
}

#[test]
fn rows_before_the_requested_position_are_refused() {
    let rows = vec![2i64, 5];
    let result = messages_from_rows(rows, 3, None);

    assert!(matches!(result, Err(GetError::DataError(_))));
}

#[test]
fn rows_out_of_order_are_refused() {
    let rows = vec![3i64, 5, 4];
    let result = messages_from_rows(rows, 3, None);

    assert!(matches!(result, Err(GetError::DataError(_))));
}

#[test]
fn rows_at_the_top_of_the_signed_range_are_refused() {
    let rows = vec![i64::MAX];
    let result = messages_from_rows(rows, 0, None);

    assert!(matches!(result, Err(GetError::DataError(_))));
}

#[test]
fn more_rows_than_the_batch_size_are_refused() {
    let rows = vec![1i64, 2, 3];
    let result = messages_from_rows(rows, 1, Some(2));

    assert!(matches!(result, Err(GetError::DataError(_))));

    let rows = vec![1i64, 2];
    assert!(messages_from_rows(rows, 1, Some(2)).is_ok());
}

#[test]
fn resume_takes_the_recorded_position_or_the_streams_first() {
    assert_eq!(resume_from(None), 1);
    assert_eq!(resume_from(Some(0)), 1);
    assert_eq!(resume_from(Some(-7)), 1);
    assert_eq!(resume_from(Some(1)), 1);
    assert_eq!(resume_from(Some(42)), 42);
}

#[test]
fn checkpoints_record_the_position_as_json() {
    assert_eq!(checkpoint_body(0), "{\"position\":0}");
    assert_eq!(checkpoint_body(120), "{\"position\":120}");
}
