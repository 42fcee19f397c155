use opcode::channel::{Channel, Received};
use opcode::events::{Event, StreamKind};

fn out(text: &str) -> Event {
    Event::Output { stream: StreamKind::Stdout, text: text.to_string() }
}

#[test]
fn delivers_in_publish_order() {
    let mut ch = Channel::new(10);
    let mut sub = ch.subscribe();
    ch.publish(out("a"));
    ch.publish(out("b"));
    assert_eq!(ch.recv(&mut sub), Received::Event(out("a")));
    assert_eq!(ch.recv(&mut sub), Received::Event(out("b")));
    assert_eq!(ch.recv(&mut sub), Received::Pending);
}

#[test]
fn closed_after_history_exhausted() {
    let mut ch = Channel::new(4);
    let mut sub = ch.subscribe();
    ch.publish(Event::Cancelled);
    ch.close();
    assert_eq!(ch.recv(&mut sub), Received::Event(Event::Cancelled));
    assert_eq!(ch.recv(&mut sub), Received::Closed);
    assert_eq!(ch.recv(&mut sub), Received::Closed);
}

#[test]
fn overflow_drops_oldest() {
    let mut ch = Channel::new(2);
    let mut sub = ch.subscribe();
    ch.publish(out("1"));
    ch.publish(out("2"));
    ch.publish(out("3"));
    // The buffer held two events, so the oldest was dropped unseen.
    assert_eq!(ch.recv(&mut sub), Received::Lagged(1));
    assert_eq!(ch.recv(&mut sub), Received::Event(out("2")));
    assert_eq!(ch.recv(&mut sub), Received::Event(out("3")));
    assert_eq!(ch.recv(&mut sub), Received::Pending);
}

#[test]
fn two_subscribers_observe_same_order() {
    let mut ch = Channel::new(10);
    let mut s1 = ch.subscribe();
    let mut s2 = ch.subscribe();
    ch.publish(out("x"));
    ch.publish(out("y"));
    ch.publish(out("z"));
    let seen1 = [ch.recv(&mut s1), ch.recv(&mut s1), ch.recv(&mut s1)];
    let seen2 = [ch.recv(&mut s2), ch.recv(&mut s2), ch.recv(&mut s2)];
    assert_eq!(seen1, seen2);
    assert_eq!(seen1[0], Received::Event(out("x")));
    assert_eq!(seen1[2], Received::Event(out("z")));
}

#[test]
fn late_subscriber_sees_nothing_earlier() {
    let mut ch = Channel::new(10);
    ch.publish(out("early"));
    let mut sub = ch.subscribe();
    assert_eq!(ch.recv(&mut sub), Received::Pending);
    ch.publish(out("late"));
    assert_eq!(ch.recv(&mut sub), Received::Event(out("late")));
}

#[test]
fn terminal_event_is_last_and_unique() {
    let mut ch = Channel::new(10);
    let mut sub = ch.subscribe();
    ch.publish(out("work"));
    ch.publish(Event::Completed { exit_success: true, exit_code: Some(0) });
    ch.close();
    let mut events = Vec::new();
    loop {
        match ch.recv(&mut sub) {
            Received::Event(e) => events.push(e),
            Received::Closed => break,
            other => panic!("unexpected reception: {:?}", other),
        }
    }
    let terminals: Vec<&Event> = events
        .iter()
        .filter(|e| !matches!(e, Event::Output { .. }))
        .collect();
    assert_eq!(terminals.len(), 1);
    assert_eq!(
        events.last(),
        Some(&Event::Completed { exit_success: true, exit_code: Some(0) })
    );
}
