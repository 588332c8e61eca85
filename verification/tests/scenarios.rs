use std::time::Duration;

use rusty_eventide::back_off::BackOff;
use rusty_eventide::controls::back_off::OnNoMessageDataCount;
use rusty_eventide::back_off::constant::ConstantBackOff;
use rusty_eventide::controls::handler::TrackingHandler;
use rusty_eventide::controls::messages;
use rusty_eventide::messaging::get::SubstituteGetter;
use rusty_eventide::messaging::{HandleError, Handler};
use rusty_eventide::messaging::get::Get;
use rusty_eventide::position_store::{PositionStore, PositionStoreTelemetry, SubstitutePositionStore};
use rusty_eventide::run_time::{RunTime, SubstituteRunTime};
use rusty_eventide::{Consumer, WorkerSlot};

type SubstituteConsumer<B, H> =
    Consumer<SubstituteGetter, B, SubstituteRunTime, SubstitutePositionStore, H>;

/// Runs the worker loop the way a started consumer's thread does: poll until
/// stopped, a pacing step refuses, or a collaborator fails.
fn drive<B: BackOff, H: Handler>(
    mut consumer: SubstituteConsumer<B, H>,
) -> Result<SubstituteConsumer<B, H>, HandleError> {
    consumer.initialize();

    let mut should_continue = true;
    while should_continue {
        if consumer.stopped() {
            break;
        }
        match consumer.tick() {
            Ok(count) => {
                should_continue = consumer.pace(count);
            }
            Err(error) => {
                consumer.set_inactive();
                return Err(error);
            }
        }
    }

    consumer.set_inactive();
    Ok(consumer)
}

#[test]
fn should_be_able_to_specify_a_back_off_strategy() {
    // A back-off longer than the run limit leaves room for exactly one
    // iteration.
    let duration_millis = 8;
    let max_run_time_duration_millis = duration_millis - 2;

    let mut consumer: SubstituteConsumer<ConstantBackOff, TrackingHandler> =
        Consumer::new("mycategory")
            .with_back_off(ConstantBackOff::new_with_duration(Duration::from_millis(
                duration_millis,
            )));

    consumer
        .run_time_mut()
        .set_run_limit(Duration::from_millis(max_run_time_duration_millis));

    let consumer = drive(consumer).expect("the run to finish cleanly");

    assert!(consumer.stopped());
    assert_eq!(consumer.iterations(), 1);
}

#[test]
fn should_be_able_to_use_last_message_count_to_determine_back_off() {
    // The first iteration returns messages, so the policy waits nothing; the
    // second comes up empty and the wait exceeds the remaining budget.
    let duration_millis = 20;
    let max_run_duration_millis = duration_millis - (duration_millis / 4);

    let mut consumer: SubstituteConsumer<OnNoMessageDataCount, TrackingHandler> =
        Consumer::new("mycategory").with_back_off(OnNoMessageDataCount::new(
            Duration::from_millis(duration_millis),
        ));

    let queued = messages::example();
    consumer.get_mut().queue_messages(&queued);

    consumer
        .run_time_mut()
        .set_run_limit(Duration::from_millis(max_run_duration_millis));

    let consumer = drive(consumer).expect("the run to finish cleanly");

    assert!(consumer.stopped());
    assert_eq!(consumer.iterations(), 2);
}

#[test]
fn should_be_able_to_wait_until_consumer_is_done() {
    // Arrange
    let handler = rusty_eventide::controls::handler::FailingHandler::build();
    let mut consumer = Consumer::new("mycategory").add_handler(handler.clone());

    // Add messages so the handler fails and the consumer stops
    let queued = messages::example();
    consumer.get_mut().queue_messages(&queued);

    // Act
    let result = drive(consumer);

    // Assert
    assert!(result.is_err());
    assert_eq!(handler.message_count(), 1);
}

#[test]
fn should_stop_processing_messages_when_handler_errors_on_start() {
    // Arrange
    let handler = rusty_eventide::controls::handler::FailingHandler::build();
    let mut consumer = Consumer::new("mycategory").add_handler(handler.clone());

    let queued = messages::example();
    consumer.get_mut().queue_messages(&queued);

    let iterations = consumer.iterations_cell();

    // Act
    let consumer_result = drive(consumer);

    // Assert
    assert!(consumer_result.is_err());

    let actual_iterations = iterations.load(std::sync::atomic::Ordering::SeqCst);

    let expected_iterations = 1;
    let expected_message_count = 1;

    assert_eq!(
        actual_iterations, expected_iterations,
        "iterations ({}) should be {}",
        actual_iterations, expected_iterations
    );
    assert_eq!(
        handler.message_count(),
        expected_message_count,
        "message count ({}) should be {}",
        handler.message_count(),
        expected_message_count
    );
}

#[test]
fn exceeded_run_limit_ends_the_run_cleanly() {
    let mut consumer: SubstituteConsumer<ConstantBackOff, TrackingHandler> =
        Consumer::new("mycategory");

    consumer
        .run_time_mut()
        .set_run_limit(Duration::from_millis(1));

    let result = drive(consumer);

    let consumer = result.expect("a spent run limit is a clean exit, not an error");
    assert!(consumer.stopped());
    assert!(consumer.iterations() >= 1);
}

#[test]
fn a_stopped_consumer_enters_no_iteration() {
    let mut consumer: SubstituteConsumer<ConstantBackOff, TrackingHandler> =
        Consumer::new("mycategory");

    consumer.set_inactive();

    let consumer = drive(consumer).expect("the run to finish cleanly");

    assert!(consumer.stopped());
    assert_eq!(consumer.iterations(), 0);
}

#[test]
fn handler_failure_on_the_first_message_leaves_the_position_unflushed() {
    let handler = rusty_eventide::controls::handler::FailingHandler::build();
    let mut consumer = Consumer::new("mycategory").add_handler(handler.clone());

    let queued = messages::example();
    consumer.get_mut().queue_messages(&queued);

    let result = consumer.tick();

    assert!(result.is_err());
    assert_eq!(handler.message_count(), 1);
    assert_eq!(consumer.position_store().put_count(), 0);
    assert_eq!(consumer.iterations(), 1);
}

#[test]
fn empty_fetch_counts_an_iteration_without_flushing() {
    let mut consumer: SubstituteConsumer<ConstantBackOff, TrackingHandler> =
        Consumer::new("mycategory");

    let count = consumer.tick().expect("an empty fetch to succeed");

    assert_eq!(count, 0);
    assert_eq!(consumer.iterations(), 1);
    assert_eq!(consumer.position_store().put_count(), 0);
}

#[test]
fn every_other_message_flushes_with_an_interval_of_two() {
    let handler = TrackingHandler::build();
    let mut settings = rusty_eventide::settings::Settings::new();
    settings.position_update_interval = 2;

    let mut consumer = Consumer::new("mycategory")
        .add_handler(handler.clone())
        .with_settings(settings);

    let queued = messages::example();
    consumer.get_mut().queue_messages(&queued);

    let count = consumer.tick().expect("the tick to succeed");

    assert_eq!(count, 2);
    assert_eq!(consumer.position_store().put_count(), 1);
}

#[test]
fn substitute_clock_spends_its_run_limit_on_sleeps() {
    let mut clock = SubstituteRunTime::new();
    assert!(clock.should_continue());

    clock.set_run_limit(Duration::from_millis(5));
    clock.sleep(Duration::from_millis(3));
    assert!(clock.should_continue());

    clock.sleep(Duration::from_millis(3));
    assert!(!clock.should_continue());
}

#[test]
fn substitute_getter_remembers_the_requested_position() {
    let mut get = SubstituteGetter::new("mycategory");
    let queued = messages::example();
    get.queue_messages(&queued);

    let returned = get.get(1).expect("get to work");

    assert_eq!(returned.len(), 1);
    assert_eq!(returned[0].global_position, 2);
}

#[test]
fn the_first_fetch_requests_the_stored_position() {
    let mut consumer: SubstituteConsumer<ConstantBackOff, TrackingHandler> =
        Consumer::new("mycategory");

    let queued = messages::example();
    consumer.get_mut().queue_messages(&queued);
    consumer.position_store_mut().set_position(2);

    consumer.initialize();
    let _ = consumer.tick();

    assert_eq!(consumer.get().last_requested_position(), Some(2));
}

#[test]
fn the_shared_cells_mirror_the_consumer_state() {
    let mut consumer: SubstituteConsumer<ConstantBackOff, TrackingHandler> =
        Consumer::new("mycategory");

    let active = consumer.active_cell();
    let iterations = consumer.iterations_cell();

    assert!(active.load(std::sync::atomic::Ordering::SeqCst));
    assert_eq!(iterations.load(std::sync::atomic::Ordering::SeqCst), 0);

    let _ = consumer.tick();
    consumer.set_inactive();

    assert!(!active.load(std::sync::atomic::Ordering::SeqCst));
    assert!(consumer.stopped());
    assert_eq!(iterations.load(std::sync::atomic::Ordering::SeqCst), 1);
    assert_eq!(consumer.iterations(), 1);
}

#[test]
fn a_worker_can_be_claimed_exactly_once() {
    let mut slot = WorkerSlot::attach(42u64);

    let first = slot.claim();
    assert!(matches!(first, Ok(42)));

    let second = slot.claim();
    assert!(matches!(second, Err(HandleError::MissingHandler)));

    let third = slot.claim();
    assert!(matches!(third, Err(HandleError::MissingHandler)));
}

#[test]
fn a_seeded_position_store_answers_its_seed() {
    let mut store = SubstitutePositionStore::new();
    assert_eq!(store.get(), 0);

    store.set_position(7);
    assert_eq!(store.get(), 7);
    assert_eq!(store.get_count(), 2);
    assert_eq!(store.put_count(), 0);

    store.put(9);
    assert_eq!(store.put_count(), 1);
    assert_eq!(store.get(), 7);
}
