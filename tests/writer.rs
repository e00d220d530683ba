use log_service::types::{LogEntry, LogLevelInternal};
use log_service::writer::{BufferedWriter, FlushError, FlushPlan, WriteError, FLUSH_INTERVAL_SECS};

fn entry(t: u64, msg: &str) -> LogEntry {
    LogEntry { timestamp: t, level: LogLevelInternal::INFO, message: String::from(msg) }
}

fn messages(b: &[LogEntry]) -> Vec<String> {
    b.iter().map(|e| e.message.clone()).collect()
}

fn take_batch(w: &mut BufferedWriter) -> Vec<LogEntry> {
    match w.begin_flush() {
        FlushPlan::Store(b) => b,
        FlushPlan::Empty => panic!("nothing buffered"),
        FlushPlan::Busy => panic!("flush already running"),
    }
}

#[test]
fn default_interval_is_five_seconds() {
    assert_eq!(FLUSH_INTERVAL_SECS, 5);
}

#[test]
fn flush_moves_every_buffered_record() {
    let mut w = BufferedWriter::new();
    w.accept(entry(1, "a")).unwrap();
    w.accept(entry(2, "b")).unwrap();
    assert_eq!(w.len(), 2);
    let b = take_batch(&mut w);
    assert_eq!(messages(&b), vec!["a", "b"]);
    assert!(w.is_flushing());
    assert!(matches!(w.finish_flush(Ok(())), Ok(2)));
    assert_eq!(w.len(), 0);
    assert!(!w.is_flushing());
}

#[test]
fn flush_of_empty_buffer_is_empty() {
    let mut w = BufferedWriter::new();
    assert!(matches!(w.begin_flush(), FlushPlan::Empty));
    assert!(!w.is_flushing());
}

#[test]
fn second_flush_waits_for_the_first() {
    let mut w = BufferedWriter::new();
    w.accept(entry(1, "a")).unwrap();
    let b = take_batch(&mut w);
    assert!(matches!(w.begin_flush(), FlushPlan::Busy));
    assert!(matches!(w.finish_flush(Ok(())), Ok(1)));
    assert_eq!(b.len(), 1);
    assert!(matches!(w.begin_flush(), FlushPlan::Empty));
}

#[test]
fn record_accepted_during_flush_goes_in_next_batch() {
    let mut w = BufferedWriter::new();
    w.accept(entry(1, "a")).unwrap();
    let first = take_batch(&mut w);
    w.accept(entry(2, "b")).unwrap();
    assert!(matches!(w.finish_flush(Ok(())), Ok(1)));
    assert_eq!(w.len(), 1);
    let second = take_batch(&mut w);
    assert_eq!(messages(&first), vec!["a"]);
    assert_eq!(messages(&second), vec!["b"]);
}

#[test]
fn failed_flush_keeps_buffer() {
    let mut w = BufferedWriter::new();
    w.accept(entry(1, "a")).unwrap();
    w.accept(entry(2, "b")).unwrap();
    let _ = take_batch(&mut w);
    match w.finish_flush(Err(String::from("connection refused"))) {
        Err(FlushError::Store(t)) => assert_eq!(t, "connection refused"),
        Ok(_) => panic!("a refused batch is no success"),
    }
    assert_eq!(w.len(), 2);
    assert!(!w.is_flushing());
    let retry = take_batch(&mut w);
    assert_eq!(messages(&retry), vec!["a", "b"]);
    assert!(matches!(w.finish_flush(Ok(())), Ok(2)));
    assert_eq!(w.len(), 0);
}

#[test]
fn closed_writer_refuses_records() {
    let mut w = BufferedWriter::new();
    assert!(matches!(w.close(), FlushPlan::Empty));
    assert!(w.is_closed());
    assert_eq!(w.accept(entry(1, "late")), Err(WriteError::Closed));
    assert_eq!(w.len(), 0);
}

#[test]
fn close_drains_every_accepted_record() {
    let mut w = BufferedWriter::new();
    let mut store: Vec<LogEntry> = Vec::new();
    for i in 0..3u64 {
        w.accept(entry(i, &format!("r{}", i))).unwrap();
    }
    let b = match w.close() {
        FlushPlan::Store(b) => b,
        _ => panic!("expected the drain batch"),
    };
    assert!(w.is_closed());
    store.extend(b);
    assert!(matches!(w.finish_flush(Ok(())), Ok(3)));
    assert_eq!(messages(&store), vec!["r0", "r1", "r2"]);
    assert_eq!(w.len(), 0);
}

#[test]
fn close_twice_flushes_nothing_more() {
    let mut w = BufferedWriter::new();
    w.accept(entry(1, "a")).unwrap();
    assert!(matches!(w.close(), FlushPlan::Store(_)));
    assert!(matches!(w.finish_flush(Ok(())), Ok(1)));
    assert!(matches!(w.close(), FlushPlan::Empty));
    assert!(matches!(w.begin_flush(), FlushPlan::Empty));
    assert_eq!(w.len(), 0);
}

#[test]
fn close_while_flushing_waits() {
    let mut w = BufferedWriter::new();
    w.accept(entry(1, "a")).unwrap();
    let _ = take_batch(&mut w);
    assert!(matches!(w.close(), FlushPlan::Busy));
    assert!(w.is_closed());
    assert_eq!(w.accept(entry(2, "b")), Err(WriteError::Closed));
    assert!(matches!(w.finish_flush(Ok(())), Ok(1)));
    assert!(matches!(w.close(), FlushPlan::Empty));
}

#[test]
fn close_after_failed_drain_is_a_no_op() {
    let mut w = BufferedWriter::new();
    w.accept(entry(1, "a")).unwrap();
    assert!(matches!(w.close(), FlushPlan::Store(_)));
    assert!(w.finish_flush(Err(String::from("down"))).is_err());
    assert!(matches!(w.close(), FlushPlan::Empty));
    assert_eq!(w.len(), 1);
}
