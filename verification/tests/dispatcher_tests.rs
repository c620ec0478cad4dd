use canvas_bridge::dispatcher::{SendEffect, UserEventSenderWeb};

#[test]
fn first_send_schedules_the_flush_later_sends_coalesce() {
    let mut dispatcher: UserEventSenderWeb<i32> = UserEventSenderWeb::new();
    assert_eq!(dispatcher.send_event(1), SendEffect::ScheduleFlush);
    assert_eq!(dispatcher.send_event(2), SendEffect::FlushAlreadyScheduled);
    assert_eq!(dispatcher.send_event(3), SendEffect::FlushAlreadyScheduled);
    assert_eq!(dispatcher.pending_len(), 3);
    assert!(dispatcher.flush_scheduled());
}

#[test]
fn flush_delivers_in_submission_order() {
    let mut dispatcher: UserEventSenderWeb<&str> = UserEventSenderWeb::new();
    dispatcher.send_event("first");
    dispatcher.send_event("second");
    dispatcher.send_event("third");
    let batch = dispatcher.begin_flush();
    assert_eq!(batch, vec!["first", "second", "third"]);
    assert_eq!(dispatcher.pending_len(), 0);
    assert!(!dispatcher.flush_scheduled());
}

#[test]
fn events_sent_during_delivery_land_in_the_next_batch() {
    let mut dispatcher: UserEventSenderWeb<i32> = UserEventSenderWeb::new();
    dispatcher.send_event(1);
    dispatcher.send_event(2);

    let first_batch = dispatcher.begin_flush();
    assert_eq!(first_batch, vec![1, 2]);

    // Delivery of the first batch is under way; a handler posts more
    // events. The flush flag was cleared before delivery, so a new flush is
    // scheduled and the events belong to the next batch only.
    assert_eq!(dispatcher.send_event(3), SendEffect::ScheduleFlush);
    assert_eq!(dispatcher.send_event(4), SendEffect::FlushAlreadyScheduled);
    assert_eq!(first_batch, vec![1, 2]);

    let second_batch = dispatcher.begin_flush();
    assert_eq!(second_batch, vec![3, 4]);
}

#[test]
fn flush_of_an_empty_queue_delivers_nothing() {
    let mut dispatcher: UserEventSenderWeb<i32> = UserEventSenderWeb::new();
    let batch = dispatcher.begin_flush();
    assert!(batch.is_empty());
}
