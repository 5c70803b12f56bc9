use rustww::read_stream::{append_chunk, ChunkResult, ReadCore, ReadStep, TeeCore};
use rustww::Polled;

type Outcome = Result<ChunkResult<u32>, &'static str>;

#[test]
fn reader_is_acquired_lazily_on_first_poll() {
    let mut c = ReadCore::new();
    assert_eq!(c.poll_start(), ReadStep::StartRead(true));
    let chunk: Outcome = Ok(ChunkResult { done: false, value: Some(1) });
    assert_eq!(c.on_chunk(chunk), (Polled::Item(Ok(1)), false));
    assert_eq!(c.poll_start(), ReadStep::StartRead(false));
}

#[test]
fn one_read_in_flight_at_a_time() {
    let mut c = ReadCore::new();
    assert_eq!(c.poll_start(), ReadStep::StartRead(true));
    assert_eq!(c.poll_start(), ReadStep::AwaitCurrent);
    assert_eq!(c.poll_start(), ReadStep::AwaitCurrent);
}

#[test]
fn exhaustion_is_terminal_and_releases_the_reader_once() {
    let mut c = ReadCore::new();
    assert_eq!(c.poll_start(), ReadStep::StartRead(true));
    let chunk: Outcome = Ok(ChunkResult { done: true, value: None });
    assert_eq!(c.on_chunk(chunk), (Polled::Closed, true));
    assert_eq!(c.poll_start(), ReadStep::Terminal);
    assert_eq!(c.poll_start(), ReadStep::Terminal);
    let (_, cancel) = c.on_drop();
    assert!(cancel);
    let (release, _) = c.on_drop();
    assert!(!release);
}

#[test]
fn a_done_response_still_carrying_a_value_ends_the_sequence() {
    let mut c = ReadCore::new();
    assert_eq!(c.poll_start(), ReadStep::StartRead(true));
    let chunk: Outcome = Ok(ChunkResult { done: true, value: Some(9) });
    assert_eq!(c.on_chunk(chunk), (Polled::Closed, true));
}

#[test]
fn a_host_error_is_handed_out_and_is_terminal() {
    let mut c = ReadCore::new();
    assert_eq!(c.poll_start(), ReadStep::StartRead(true));
    let chunk: Outcome = Err("boom");
    assert_eq!(c.on_chunk(chunk), (Polled::Item(Err("boom")), true));
    assert_eq!(c.poll_start(), ReadStep::Terminal);
}

#[test]
fn drop_fires_the_cancel_callback_exactly_once() {
    // Even with a read in flight, dropping the adapter cancels its
    // custom source exactly once.
    let mut c = ReadCore::new();
    assert_eq!(c.poll_start(), ReadStep::StartRead(true));
    let (release, cancel) = c.on_drop();
    assert!(release);
    assert!(cancel);
    let (release, cancel) = c.on_drop();
    assert!(!release);
    assert!(!cancel);
}

#[test]
fn drop_before_any_poll_releases_no_reader() {
    let mut c = ReadCore::new();
    let (release, cancel) = c.on_drop();
    assert!(!release);
    assert!(cancel);
}

#[test]
fn chunk_interpretation_matches_the_host_protocol() {
    assert_eq!(
        ReadCore::chunk_value(ChunkResult { done: false, value: Some(3) }),
        Some(3)
    );
    assert_eq!(
        ReadCore::chunk_value(ChunkResult::<u32> { done: false, value: None }),
        None
    );
    assert_eq!(
        ReadCore::chunk_value(ChunkResult { done: true, value: Some(3) }),
        None
    );
}

#[test]
fn gathered_bytes_keep_their_order() {
    let mut gathered = vec![1u8, 2];
    append_chunk(&mut gathered, &vec![3, 4, 5]);
    append_chunk(&mut gathered, &Vec::new());
    append_chunk(&mut gathered, &vec![6]);
    assert_eq!(gathered, vec![1, 2, 3, 4, 5, 6]);
}

#[test]
fn split_source_is_released_when_both_halves_are_done() {
    let mut t = TeeCore::new();
    assert!(!t.half_done());
    assert!(t.half_done());
}
