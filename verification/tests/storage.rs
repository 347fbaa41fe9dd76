use notiz::storage::{millis_timestamp, now_millis, settings_from_row, settings_row, Note, Settings};

#[test]
fn settings_round_trip_through_their_row() {
    let settings = Settings {
        semantic_enabled: true,
        laya_endpoint: "http://127.0.0.1:9000/v1/systemone".to_owned(),
    };
    let (enabled, endpoint) = settings_row(&settings);
    assert_eq!(enabled, 1);
    assert!(settings_from_row(enabled, endpoint) == settings);
    let off = settings_from_row(0, "x".to_owned());
    assert!(!off.semantic_enabled);
    assert_eq!(settings_row(&off).0, 0);
    assert!(settings_from_row(-3, String::new()).semantic_enabled);
}

#[test]
fn timestamps_are_the_low_bits_of_the_millisecond_count() {
    assert_eq!(millis_timestamp(None), 0);
    assert_eq!(millis_timestamp(Some(1_700_000_000_000)), 1_700_000_000_000);
    assert_eq!(millis_timestamp(Some(u128::from(u64::MAX) + 6)), 5);
    assert!(now_millis() > 1_600_000_000_000);
}

#[test]
fn notes_clone_keeps_id_and_body() {
    let n = Note { id: 4, body: "x".to_owned() };
    let c = n.clone();
    assert_eq!(c.id, 4);
    assert_eq!(c.body, "x");
}
