use remotty::backlog::Backlog;
use remotty::json::Json;

fn message(n: u32) -> Json {
    Json::Number(n.to_string())
}

/// Reads the whole pass, setting every message aside again.
fn drain_pass(backlog: &mut Backlog) -> Vec<Json> {
    let mut seen = Vec::new();
    backlog.begin_pass();
    while let Some(m) = backlog.next_unread() {
        seen.push(m.clone());
        backlog.defer(m);
    }
    seen
}

#[test]
fn new_backlog_has_nothing_to_read() {
    let mut backlog = Backlog::new();
    backlog.begin_pass();
    assert!(backlog.next_unread().is_none());
}

#[test]
fn a_pass_reads_each_waiting_message_once_in_order() {
    let mut backlog = Backlog::new();
    backlog.begin_pass();
    backlog.defer(message(1));
    backlog.defer(message(2));
    backlog.defer(message(3));

    assert_eq!(drain_pass(&mut backlog), vec![message(1), message(2), message(3)]);
    // Setting every message aside again keeps them all, in order.
    assert_eq!(drain_pass(&mut backlog), vec![message(1), message(2), message(3)]);
}

#[test]
fn a_message_handled_in_a_pass_leaves_the_backlog() {
    let mut backlog = Backlog::new();
    backlog.begin_pass();
    backlog.defer(message(1));
    backlog.defer(message(2));
    backlog.defer(message(3));

    backlog.begin_pass();
    let first = backlog.next_unread().expect("first");
    backlog.defer(first);
    let second = backlog.next_unread().expect("second");
    assert_eq!(second, message(2));
    // The reply is handled; the pass ends here.

    assert_eq!(drain_pass(&mut backlog), vec![message(1), message(3)]);
}

#[test]
fn messages_set_aside_after_the_unread_ones_come_last() {
    let mut backlog = Backlog::new();
    backlog.begin_pass();
    backlog.defer(message(1));

    backlog.begin_pass();
    let first = backlog.next_unread().expect("first");
    backlog.defer(first);
    assert!(backlog.next_unread().is_none());
    backlog.defer(message(2));

    assert_eq!(drain_pass(&mut backlog), vec![message(1), message(2)]);
}

#[test]
fn ending_a_pass_early_keeps_the_unread_messages_in_order() {
    let mut backlog = Backlog::new();
    backlog.begin_pass();
    for n in 1..=4 {
        backlog.defer(message(n));
    }

    backlog.begin_pass();
    let first = backlog.next_unread().expect("first");
    backlog.defer(first);
    let second = backlog.next_unread().expect("second");
    assert_eq!(second, message(2));
    // A new pass starts before this one has read messages 3 and 4.

    assert_eq!(drain_pass(&mut backlog), vec![message(1), message(3), message(4)]);
}
