use rustww::write_stream::{SinkCore, WriteCore};

#[test]
fn writer_is_acquired_on_the_first_write_only() {
    let mut c = WriteCore::new();
    assert!(c.begin_write());
    c.end_write();
    assert!(!c.begin_write());
    c.end_write();
}

#[test]
fn close_releases_the_writer_exactly_once() {
    let mut c = WriteCore::new();
    assert!(c.begin_write());
    c.end_write();
    assert!(c.begin_close());
    assert!(!c.begin_close());
    assert!(!c.begin_abort());
}

#[test]
fn close_without_a_writer_releases_nothing() {
    let mut c = WriteCore::new();
    assert!(!c.begin_close());
}

#[test]
fn drop_without_close_aborts_the_sink() {
    let mut c = WriteCore::new();
    assert!(c.begin_write());
    c.end_write();
    let (release, abort_sink, cancel) = c.on_drop();
    assert!(release);
    assert!(abort_sink);
    assert!(cancel);
    let (release, abort_sink, cancel) = c.on_drop();
    assert!(!release);
    assert!(!abort_sink);
    assert!(!cancel);
}

#[test]
fn drop_after_close_does_not_abort_again() {
    let mut c = WriteCore::new();
    assert!(!c.begin_close());
    let (release, abort_sink, cancel) = c.on_drop();
    assert!(!release);
    assert!(!abort_sink);
    assert!(cancel);
}

#[test]
fn sink_batches_writes_and_flushes_them_together() {
    let mut s = SinkCore::new();
    assert!(s.poll_ready());
    s.start_send();
    s.start_send();
    assert!(s.begin_flush());
    assert!(!s.poll_ready());
    assert!(!s.begin_flush());
    s.flush_resolved();
    assert!(s.poll_ready());
}

#[test]
fn sink_close_starts_exactly_once() {
    let mut s = SinkCore::new();
    assert!(s.begin_close());
    assert!(!s.begin_close());
}
