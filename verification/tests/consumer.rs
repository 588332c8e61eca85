use rusty_eventide::back_off::constant::ConstantBackOff;
use rusty_eventide::controls::handler::{FailingHandler, TrackingHandler};
use rusty_eventide::controls::messages;
use rusty_eventide::messaging::get::{GetTelemetry, SubstituteGetter};
use rusty_eventide::messaging::MessageData;
use rusty_eventide::position_store::{PositionStoreTelemetry, SubstitutePositionStore};
use rusty_eventide::run_time::SubstituteRunTime;
use rusty_eventide::settings::Settings;
use rusty_eventide::Consumer;

type SubstituteConsumer<H> =
    Consumer<SubstituteGetter, ConstantBackOff, SubstituteRunTime, SubstitutePositionStore, H>;

fn add_messages<H: rusty_eventide::messaging::Handler>(
    consumer: &mut SubstituteConsumer<H>,
) -> Vec<MessageData> {
    let get = consumer.get_mut();
    let messages = messages::example();
    get.queue_messages(&messages);

    messages
}

#[test]
fn should_ask_for_messages_every_tick() {
    // Arrange
    let mut consumer: SubstituteConsumer<TrackingHandler> = Consumer::new("mycategory");

    // Act
    let _ = consumer.tick();

    // Assert
    let get = consumer.get();
    assert!(get.get_count() > 0);
}

#[test]
fn should_return_same_number_of_queued_messages_on_tick() {
    // Arrange
    let mut consumer: SubstituteConsumer<TrackingHandler> = Consumer::new("mycategory");

    let messages = add_messages(&mut consumer);
    let messages_count = messages.len() as u64;

    // Act
    let _ = consumer.tick();

    // Assert
    let get = consumer.get();
    assert_eq!(messages_count, get.get_messages_count());
}

#[test]
fn should_offer_messages_to_handler_on_tick() {
    // Arrange
    let handler = TrackingHandler::build();
    let mut consumer = Consumer::new("mycategory").add_handler(handler.clone());

    let messages = add_messages(&mut consumer);
    let messages_count = messages.len() as u64;

    // Act
    let _ = consumer.tick();

    // Assert
    assert_eq!(handler.message_count(), messages_count);
}

#[test]
fn should_stop_processing_messages_when_handler_errors_on_tick() {
    // Arrange
    let handler = FailingHandler::build();
    let mut consumer = Consumer::new("mycategory").add_handler(handler.clone());

    add_messages(&mut consumer);

    // Act
    let _ = consumer.tick();

    // Assert
    let only_one_message_handled = 1;
    assert_eq!(handler.message_count(), only_one_message_handled);
}

#[test]
fn should_store_position_periodically_to_optimize_resume() {
    // Arrange
    let handler = TrackingHandler::build();
    let mut settings = Settings::new();
    settings.position_update_interval = 1;

    let mut consumer = Consumer::new("mycategory")
        .add_handler(handler.clone())
        .with_settings(settings);

    let messages = add_messages(&mut consumer);
    let messages_count = messages.len() as u64;

    // Act
    let _ = consumer.tick();

    // Assert
    let position_store = consumer.position_store();
    assert_eq!(position_store.put_count(), messages_count);
}

#[test]
fn should_start_from_stored_position() {
    // Arrange
    let handler = TrackingHandler::build();

    let mut consumer = Consumer::new("mycategory").add_handler(handler.clone());

    let messages = add_messages(&mut consumer);
    let messages_count = messages.len() as u64;

    let position_store = consumer.position_store_mut();
    position_store.set_position(messages_count);

    // Act
    consumer.initialize();

    let _ = consumer.tick();

    // Assert
    let no_messages_processed = 0;
    assert_eq!(handler.message_count(), no_messages_processed);
}
