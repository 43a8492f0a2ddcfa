use launcher_core::logbuf::LogBuffer;
use launcher_core::timer::DismissTimer;

#[test]
fn log_buffer_keeps_insertion_order() {
    let mut buf = LogBuffer::new();
    assert_eq!(buf.len(), 0);
    buf.append(String::from("first"));
    buf.append(String::from("second"));
    buf.append(String::from("third"));
    assert_eq!(buf.len(), 3);
    let lines = buf.snapshot();
    assert_eq!(lines[0], "first");
    assert_eq!(lines[1], "second");
    assert_eq!(lines[2], "third");
}

#[test]
fn log_buffer_clear_empties_it() {
    let mut buf = LogBuffer::new();
    buf.append(String::from("line"));
    buf.clear();
    assert_eq!(buf.len(), 0);
    assert!(buf.snapshot().is_empty());
    buf.append(String::from("after"));
    assert_eq!(buf.snapshot()[0], "after");
}

#[test]
fn timer_counts_down_and_fires_at_zero() {
    let mut t = DismissTimer::arm(5);
    assert!(!t.tick(2));
    assert!(!t.tick(2));
    assert!(t.tick(1));
}

#[test]
fn timer_fires_when_elapsed_overshoots() {
    let mut t = DismissTimer::arm(5);
    assert!(t.tick(100));
}

#[test]
fn timer_does_not_fire_early() {
    let mut t = DismissTimer::arm(3);
    assert!(!t.tick(0));
    assert!(!t.tick(1));
    assert!(!t.tick(1));
    assert!(t.tick(1));
}
