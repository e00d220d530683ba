use vstd::prelude::*;

use crate::types::{ErrorMessage, LogEntry, LogEntryInput, LogEntryOutput, LogViewQuery};
use crate::writer::{BufferedWriter, WriteError, WriterState};

verus! {

/// Why a submission was not accepted.
#[derive(Clone, Copy, Debug, PartialEq, Eq, Structural)]
pub enum IngestError {
    /// The service is shutting down and takes no more records.
    ServiceUnavailable,
}

/// Why a scan of the store failed.
#[derive(Clone, Debug)]
pub enum QueryError {
    /// The store's error text, passed on verbatim.
    Store(String),
}

impl QueryError {
    /// The error reply for a failed scan: the store's text, verbatim.
    pub fn to_message(&self) -> (r: ErrorMessage)
        ensures
            self matches QueryError::Store(t) && r.message == t,
    {
        match self {
            QueryError::Store(t) => ErrorMessage::new(t.clone()),
        }
    }
}

/// Accepts a submission at time `now` (nanoseconds since the epoch): the
/// record gets that timestamp and goes into the writer's buffer, and is
/// returned as it was stored. Refused once the writer is closed.
pub fn submit(writer: &mut BufferedWriter, input: LogEntryInput, now: u64) -> (r: Result<
    LogEntry,
    IngestError,
>)
    requires
        old(writer)@.wf(),
    ensures
        final(writer)@ == old(writer)@.accept(LogEntry::from_input_spec(input, now)),
        final(writer)@.wf(),
        r is Err <==> old(writer)@.closed,
        r matches Ok(e) ==> e == LogEntry::from_input_spec(input, now),
        r matches Err(err) ==> err == IngestError::ServiceUnavailable,
{
    let e = LogEntry::from_input(input, now);
    match writer.accept(e.duplicate()) {
        Ok(()) => Ok(e),
        Err(WriteError::Closed) => Err(IngestError::ServiceUnavailable),
    }
}

/// The answer to a listing, from the outcome of the store scan: the rows as
/// clients see them, in the store's order, or the store's error.
pub fn list_result(scan: Result<Vec<LogEntry>, String>) -> (r: Result<Vec<LogEntryOutput>, QueryError>)
    ensures
        scan is Ok <==> r is Ok,
        scan matches Ok(rows) ==> (r matches Ok(out) && out@.len() == rows@.len() && forall|i: int|
            0 <= i < rows@.len() ==> #[trigger] out@[i] == rows@[i].output_spec()),
        scan matches Err(e) ==> (r matches Err(QueryError::Store(t)) && t == e),
{
    match scan {
        Ok(rows) => Ok(crate::types::outputs_of(&rows)),
        Err(e) => Err(QueryError::Store(e)),
    }
}

/// The records that a scan of `store` under `q` returns, leaving their
/// order aside.
pub open spec fn scan(store: Seq<LogEntry>, q: LogViewQuery) -> Seq<LogEntry> {
    store.filter(|e: LogEntry| q.matches_spec(e))
}

/// A submission that the writer accepted is seen by every later listing
/// whose filter covers its level and timestamp: the flush that the listing
/// forces carries the record (at once when no flush runs, else once the
/// running one has ended, whatever its outcome), and the scan of the store
/// with that batch added returns it.
pub proof fn lemma_read_after_write(
    s: WriterState,
    input: LogEntryInput,
    now: u64,
    q: LogViewQuery,
    store: Seq<LogEntry>,
    stored: bool,
)
    requires
        s.wf(),
        !s.closed,
        q.level == input.level,
        q.timestamp_ge <= now <= q.timestamp_le,
    ensures
        ({
            let e = LogEntry::from_input_spec(input, now);
            let t = if s.batch is None {
                s.accept(e)
            } else {
                s.accept(e).finish_flush(stored)
            };
            &&& t.begin_flush().in_flight().contains(e)
            &&& scan(store + t.begin_flush().in_flight(), q).contains(e)
        }),
{
    let e = LogEntry::from_input_spec(input, now);
    let t = if s.batch is None {
        s.accept(e)
    } else {
        s.accept(e).finish_flush(stored)
    };
    assert(t.batch is None);
    assert(t.buffer.len() > 0 && t.buffer.last() == e);
    let b = t.begin_flush().in_flight();
    assert(b =~= t.buffer);
    assert(b[b.len() - 1] == e);
    let all = store + b;
    let i = store.len() + b.len() - 1;
    assert(all[i] == e);
    all.lemma_filter_contains(|x: LogEntry| q.matches_spec(x), i);
}

} // verus!
