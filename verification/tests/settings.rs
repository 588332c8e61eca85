use rusty_eventide::messaging::MessageData;
use rusty_eventide::settings::Settings;

#[test]
fn default_settings_flush_every_hundred_messages() {
    let settings = Settings::new();

    assert_eq!(settings.position_update_interval, 100);
    assert_eq!(
        settings.message_db_url,
        "postgres://message_store@localhost/message_store"
    );
    assert!(settings.batch_size.is_none());
    assert!(settings.correlation.is_none());
    assert!(settings.consumer_group_member.is_none());
    assert!(settings.consumer_group_size.is_none());
    assert!(settings.condition.is_none());
}

#[test]
fn built_settings_match_the_defaults() {
    let built = Settings::build();
    let fresh = Settings::new();

    assert_eq!(built.position_update_interval, fresh.position_update_interval);
    assert_eq!(built.message_db_url, fresh.message_db_url);
}

#[test]
fn messages_compare_by_their_global_position() {
    let first = MessageData { global_position: 4 };
    let same = MessageData { global_position: 4 };
    let other = MessageData { global_position: 5 };

    assert_eq!(first, same);
    assert_ne!(first, other);
    assert_eq!(first.clone(), same);
}
