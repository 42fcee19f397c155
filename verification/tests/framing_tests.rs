use opcode::channel::Received;
use opcode::events::{Event, SessionState, StreamKind};
use opcode::framing::LineFramer;
use opcode::registry::SessionRegistry;
use opcode::relay::{relay_chunk, relay_end};

#[test]
fn frames_lines_across_chunk_boundaries() {
    let mut fr = LineFramer::new();
    assert_eq!(fr.push(b"li"), Vec::<Vec<u8>>::new());
    assert_eq!(fr.push(b"ne1\nli"), vec![b"line1".to_vec()]);
    assert_eq!(fr.push(b"ne2\nline3\n"), vec![b"line2".to_vec(), b"line3".to_vec()]);
    assert_eq!(fr.finish(), None);
}

#[test]
fn flushes_trailing_partial_line() {
    let mut fr = LineFramer::new();
    assert_eq!(fr.push(b"no newline"), Vec::<Vec<u8>>::new());
    assert_eq!(fr.finish(), Some(b"no newline".to_vec()));
    // Nothing pending afterwards.
    assert_eq!(fr.finish(), None);
}

#[test]
fn empty_lines_are_lines() {
    let mut fr = LineFramer::new();
    assert_eq!(fr.push(b"\n\na\n"), vec![b"".to_vec(), b"".to_vec(), b"a".to_vec()]);
}

#[test]
fn carriage_returns_are_ordinary_bytes() {
    // Framing is by line feed alone; a carriage return stays in the line.
    let mut fr = LineFramer::new();
    assert_eq!(fr.push(b"a\r\nb"), vec![b"a\r".to_vec()]);
    assert_eq!(fr.finish(), Some(b"b".to_vec()));
}

#[test]
fn relay_publishes_each_completed_line() {
    let mut reg: SessionRegistry<u64> = SessionRegistry::new();
    reg.register("s1".to_string(), 1, 100, 0);
    let mut sub = reg.subscribe(&"s1".to_string()).unwrap();
    let mut fr = LineFramer::new();

    let n = relay_chunk(&mut reg, &"s1".to_string(), StreamKind::Stdout, &mut fr, b"hello\nwor");
    assert_eq!(n, 1);
    assert_eq!(
        reg.recv(&"s1".to_string(), &mut sub),
        Received::Event(Event::Output { stream: StreamKind::Stdout, text: "hello".to_string() })
    );
    assert_eq!(reg.recv(&"s1".to_string(), &mut sub), Received::Pending);

    // Stream end: the trailing partial line is flushed as a final line.
    assert!(relay_end(&mut reg, &"s1".to_string(), StreamKind::Stdout, &mut fr));
    assert_eq!(
        reg.recv(&"s1".to_string(), &mut sub),
        Received::Event(Event::Output { stream: StreamKind::Stdout, text: "wor".to_string() })
    );
}

#[test]
fn relay_end_without_partial_publishes_nothing() {
    let mut reg: SessionRegistry<u64> = SessionRegistry::new();
    reg.register("s1".to_string(), 1, 100, 0);
    let mut sub = reg.subscribe(&"s1".to_string()).unwrap();
    let mut fr = LineFramer::new();
    relay_chunk(&mut reg, &"s1".to_string(), StreamKind::Stderr, &mut fr, b"done\n");
    assert!(!relay_end(&mut reg, &"s1".to_string(), StreamKind::Stderr, &mut fr));
    assert_eq!(
        reg.recv(&"s1".to_string(), &mut sub),
        Received::Event(Event::Output { stream: StreamKind::Stderr, text: "done".to_string() })
    );
    assert_eq!(reg.recv(&"s1".to_string(), &mut sub), Received::Pending);
}

#[test]
fn relay_decodes_utf8_lines() {
    let mut reg: SessionRegistry<u64> = SessionRegistry::new();
    reg.register("s1".to_string(), 1, 100, 0);
    let mut sub = reg.subscribe(&"s1".to_string()).unwrap();
    let mut fr = LineFramer::new();
    relay_chunk(&mut reg, &"s1".to_string(), StreamKind::Stdout, &mut fr, "héllo\n".as_bytes());
    assert_eq!(
        reg.recv(&"s1".to_string(), &mut sub),
        Received::Event(Event::Output { stream: StreamKind::Stdout, text: "héllo".to_string() })
    );
}

#[test]
fn relay_for_ended_session_drops_lines() {
    let mut reg: SessionRegistry<u64> = SessionRegistry::new();
    reg.register("s1".to_string(), 1, 100, 0);
    let mut sub = reg.subscribe(&"s1".to_string()).unwrap();
    assert_eq!(reg.cancel(&"s1".to_string()), Some(1));
    let mut fr = LineFramer::new();
    relay_chunk(&mut reg, &"s1".to_string(), StreamKind::Stdout, &mut fr, b"late\n");
    assert_eq!(reg.state_of(&"s1".to_string()), Some(SessionState::Cancelled));
    assert_eq!(
        reg.recv(&"s1".to_string(), &mut sub),
        Received::Event(Event::Cancelled)
    );
    assert_eq!(reg.recv(&"s1".to_string(), &mut sub), Received::Closed);
}
