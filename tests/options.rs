use lagan::options::PubSubOptions;

#[test]
fn options_defaults() {
    let o = PubSubOptions::default();
    assert_eq!(o.queue_length, None);
    assert_eq!(o.update_interval, 100_000);
    assert!(!o.send_all_updates);
    assert!(o.ignore_duplicates);
    assert_eq!(o, PubSubOptions::builder().build());
}

#[test]
fn options_builder_sets_fields() {
    let o = PubSubOptions::builder().queue_length(5).update_interval(20_000).send_all_updates(true).ignore_duplicates(false).build();
    assert_eq!(o, PubSubOptions::new(Some(5), 20_000, true, false));
}

#[test]
fn options_effective_queue_length() {
    assert_eq!(PubSubOptions::new(None, 0, true, true).effective_queue_length(), 1);
    assert_eq!(PubSubOptions::new(None, 0, false, true).effective_queue_length(), 20);
    assert_eq!(PubSubOptions::new(Some(7), 0, true, true).effective_queue_length(), 7);
}

#[test]
fn options_engine_record() {
    let raw = PubSubOptions::new(None, 50_000, true, true).to_raw();
    assert_eq!(raw.pollStorage, 0);
    assert_eq!(raw.periodic_micros, 50_000);
    assert_eq!(raw.sendAll, 1);
    assert_eq!(raw.keepDuplicates, 0);
    assert_eq!(raw.excludePublisher, 0);
    let o = PubSubOptions::new(Some(3), 1, false, false);
    let raw = o.to_raw();
    assert_eq!(raw.keepDuplicates, 1);
    assert_eq!(PubSubOptions::from_raw(&raw), o);
}
