use monoterminal_master::scrollback::RingBuffer;
use monoterminal_master::session::{Dimensions, Line, Session, SessionState};

#[test]
fn test_ring_buffer_basic() {
    let mut buf = RingBuffer::new(3);
    buf.push(1);
    buf.push(2);
    buf.push(3);
    assert_eq!(buf.len(), 3);

    // Push 4th item, should drop first
    buf.push(4);
    assert_eq!(buf.len(), 3);
    let items: Vec<_> = buf.iter().copied().collect();
    assert_eq!(items, vec![2, 3, 4]);
}

#[test]
fn test_ring_buffer_clear() {
    let mut buf = RingBuffer::new(10);
    buf.push(1);
    buf.push(2);
    assert_eq!(buf.len(), 2);

    buf.clear();
    assert_eq!(buf.len(), 0);
    assert!(buf.is_empty());
}

#[test]
fn ring_buffer_reports_full_at_capacity() {
    let mut buf = RingBuffer::new(2);
    assert!(!buf.is_full());
    buf.push_line("a");
    buf.push_line("b");
    assert!(buf.is_full());
    buf.push_line("c");
    let items: Vec<_> = buf.iter().copied().collect();
    assert_eq!(items, vec!["b", "c"]);
}

#[test]
fn ring_buffer_of_capacity_zero_stays_empty() {
    let mut buf = RingBuffer::new(0);
    buf.push(7);
    buf.push_line(8);
    assert_eq!(buf.len(), 0);
    assert!(buf.is_empty());
    assert!(buf.is_full());
}

#[test]
fn ring_buffer_keeps_newest_items_in_order() {
    let mut buf = RingBuffer::new(4);
    for x in 1..=10 {
        buf.push(x);
        assert!(buf.len() <= 4);
    }
    let items: Vec<_> = buf.iter().copied().collect();
    assert_eq!(items, vec![7, 8, 9, 10]);
}

#[test]
fn test_session_state() {
    assert_eq!(SessionState::Running, SessionState::Running);
    assert_ne!(SessionState::Running, SessionState::Terminated);
}

#[test]
fn test_dimensions() {
    let dims = Dimensions { rows: 24, cols: 80 };
    assert_eq!(dims.rows, 24);
    assert_eq!(dims.cols, 80);
}

#[test]
fn test_line_from_bytes() {
    let line = Line::from_bytes(b"hello world");
    assert_eq!(line.data, b"hello world");
}

#[test]
fn session_attach_is_idempotent_and_detach_removes() {
    let mut s: Session<&str> = Session::new(7, 42, "/bin/bash".to_string(), "/tmp".to_string(), 24, 80);
    assert_eq!(s.state, SessionState::Running);
    assert_eq!(s.scrollback.len(), 0);
    s.attach_client(1, "first");
    s.attach_client(2, "second");
    s.attach_client(1, "again");
    assert_eq!(s.client_ids(), vec![1, 2]);
    assert_eq!(s.client_channels()[0].1, "first");
    s.detach_client(1);
    assert_eq!(s.client_ids(), vec![2]);
    s.detach_client(99);
    assert_eq!(s.client_ids(), vec![2]);
}

#[test]
fn session_snapshot_copies_scrollback() {
    let mut s: Session<u8> = Session::new(1, 2, "sh".to_string(), "/home".to_string(), 30, 100);
    s.scrollback.push_line(Line::from_bytes(b"one"));
    s.scrollback.push_line(Line::from_bytes(b"two"));
    let snap = s.snapshot();
    assert_eq!(snap.id, 1);
    assert_eq!((snap.rows, snap.cols), (30, 100));
    assert_eq!(snap.working_dir, "/home");
    assert_eq!(snap.shell_type, "sh");
    assert_eq!(snap.scrollback.len(), 2);
    assert_eq!(snap.scrollback[1].data, b"two");
}
