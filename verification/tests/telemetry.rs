use rusty_eventide::controls;
use rusty_eventide::telemetry::sink::Sink;
use rusty_eventide::telemetry::Telemetry;

#[test]
fn should_send_recording_to_sink() {
    let mut telemetry = Telemetry::new();
    let sink = Sink::new();
    telemetry.register(sink.clone());

    let signal = controls::telemetry::signal();

    telemetry.record(signal);

    assert!(sink.recorded(signal))
}

#[test]
fn should_send_data_to_sink() {
    let mut telemetry = Telemetry::new();
    let sink = Sink::new();
    telemetry.register(sink.clone());

    let signal = controls::telemetry::signal();
    let data = controls::telemetry::data();

    telemetry.record_data(signal, data.clone());

    assert_eq!(sink.data_recorded(signal), data)
}

#[test]
fn record_keeps_the_first_payload_for_a_signal() {
    let mut telemetry = Telemetry::new();
    let sink = Sink::new();
    telemetry.register(sink.clone());

    let signal = controls::telemetry::signal();

    telemetry.record_data(signal, controls::telemetry::data());
    telemetry.record(signal);

    assert!(sink.recorded(signal));
    assert_eq!(sink.data_recorded(signal), controls::telemetry::data());
}

#[test]
fn data_recorded_answers_null_for_an_absent_signal() {
    let sink = Sink::new();

    assert!(!sink.recorded("nothing"));
    assert!(sink.data_recorded("nothing").is_null());
}
