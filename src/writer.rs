use vstd::prelude::*;

use crate::types::LogEntry;

verus! {

/// Seconds between two periodic flushes of the buffer.
pub const FLUSH_INTERVAL_SECS: u64 = 5;

/// Why a record was refused by the writer.
#[derive(Clone, Copy, Debug, PartialEq, Eq, Structural)]
pub enum WriteError {
    /// The writer has been closed and takes no more records.
    Closed,
}

/// Why a flush did not make its batch durable.
#[derive(Clone, Debug)]
pub enum FlushError {
    /// The store refused the batch; the text is its error.
    Store(String),
}

/// What a caller of `begin_flush` has to do next.
pub enum FlushPlan {
    /// Nothing is buffered: the flush is over, with no record moved.
    Empty,
    /// Another flush is under way: wait for its outcome, then try again.
    Busy,
    /// Insert this batch into the store as one batch, then report the
    /// outcome to `finish_flush`.
    Store(Vec<LogEntry>),
}

/// The abstract state of a buffered writer.
pub ghost struct WriterState {
    /// Records accepted and not yet durable, oldest first.
    pub buffer: Seq<LogEntry>,
    /// While a flush is under way, how many records at the front of the
    /// buffer its batch holds.
    pub batch: Option<nat>,
    /// Whether the writer has stopped accepting records.
    pub closed: bool,
}

impl WriterState {
    /// The state of a fresh writer.
    pub open spec fn init() -> WriterState {
        WriterState { buffer: Seq::empty(), batch: None, closed: false }
    }

    /// A running batch is a non-empty prefix of the buffer.
    pub open spec fn wf(self) -> bool {
        match self.batch {
            Some(n) => 0 < n <= self.buffer.len(),
            None => true,
        }
    }

    /// The records of the flush under way, if there is one.
    pub open spec fn in_flight(self) -> Seq<LogEntry> {
        match self.batch {
            Some(n) => self.buffer.take(n as int),
            None => Seq::empty(),
        }
    }

    /// Appending a record: refused once closed.
    pub open spec fn accept(self, e: LogEntry) -> WriterState {
        if self.closed {
            self
        } else {
            WriterState { buffer: self.buffer.push(e), batch: self.batch, closed: self.closed }
        }
    }

    /// Starting a flush: only when none runs and something is buffered, and
    /// then the batch is the whole buffer.
    pub open spec fn begin_flush(self) -> WriterState {
        if self.batch is None && self.buffer.len() > 0 {
            WriterState { buffer: self.buffer, batch: Some(self.buffer.len()), closed: self.closed }
        } else {
            self
        }
    }

    /// Ending the flush under way: the batch leaves the buffer if the store
    /// took it, and stays otherwise.
    pub open spec fn finish_flush(self, stored: bool) -> WriterState {
        match self.batch {
            Some(n) => WriterState {
                buffer: if stored {
                    self.buffer.skip(n as int)
                } else {
                    self.buffer
                },
                batch: None,
                closed: self.closed,
            },
            None => self,
        }
    }

    /// Closing: no record is accepted afterwards, and the first close starts
    /// the drain; closing a closed writer changes nothing.
    pub open spec fn shut(self) -> WriterState {
        if self.closed {
            self
        } else {
            WriterState { buffer: self.buffer, batch: self.batch, closed: true }.begin_flush()
        }
    }
}

/// Accepted records waiting to be moved into the store in batches.
pub struct BufferedWriter {
    buffer: Vec<LogEntry>,
    batch: Option<usize>,
    closed: bool,
}

impl View for BufferedWriter {
    type V = WriterState;

    closed spec fn view(&self) -> WriterState {
        WriterState {
            buffer: self.buffer@,
            batch: match self.batch {
                Some(n) => Some(n as nat),
                None => None,
            },
            closed: self.closed,
        }
    }
}

impl BufferedWriter {
    pub fn new() -> (r: BufferedWriter)
        ensures
            r@ == WriterState::init(),
            r@.wf(),
    {
        BufferedWriter { buffer: Vec::new(), batch: None, closed: false }
    }

    /// Number of records buffered and not yet durable.
    pub fn len(&self) -> (r: usize)
        ensures
            r == self@.buffer.len(),
    {
        self.buffer.len()
    }

    pub fn is_closed(&self) -> (r: bool)
        ensures
            r == self@.closed,
    {
        self.closed
    }

    /// Whether a flush is under way.
    pub fn is_flushing(&self) -> (r: bool)
        ensures
            r == self@.batch is Some,
    {
        self.batch.is_some()
    }

    /// Appends a record to the buffer; refused once the writer is closed.
    pub fn accept(&mut self, e: LogEntry) -> (r: Result<(), WriteError>)
        requires
            old(self)@.wf(),
        ensures
            final(self)@ == old(self)@.accept(e),
            final(self)@.wf(),
            r is Err <==> old(self)@.closed,
            r matches Err(err) ==> err == WriteError::Closed,
    {
        if self.closed {
            return Err(WriteError::Closed);
        }
        self.buffer.push(e);
        Ok(())
    }

    /// Starts a flush: hands out every buffered record as one batch, unless
    /// a flush already runs or nothing is buffered.
    pub fn begin_flush(&mut self) -> (r: FlushPlan)
        requires
            old(self)@.wf(),
        ensures
            final(self)@ == old(self)@.begin_flush(),
            final(self)@.wf(),
            r is Busy <==> old(self)@.batch is Some,
            r is Empty <==> (old(self)@.batch is None && old(self)@.buffer.len() == 0),
            r matches FlushPlan::Store(b) ==> b@ == old(self)@.buffer && b@ == final(self)@.in_flight(),
    {
        if self.batch.is_some() {
            return FlushPlan::Busy;
        }
        if self.buffer.len() == 0 {
            return FlushPlan::Empty;
        }
        let mut b: Vec<LogEntry> = Vec::new();
        let mut i: usize = 0;
        while i < self.buffer.len()
            invariant
                i <= self.buffer@.len(),
                b@ == self.buffer@.take(i as int),
            decreases self.buffer@.len() - i,
        {
            b.push(self.buffer[i].duplicate());
            i = i + 1;
            assert(b@ =~= self.buffer@.take(i as int));
        }
        assert(b@ =~= self.buffer@);
        self.batch = Some(self.buffer.len());
        FlushPlan::Store(b)
    }

    /// Ends the flush under way with the store's answer: on success the
    /// batch leaves the buffer and its size is returned; on failure every
    /// record stays buffered and the store's error is returned.
    pub fn finish_flush(&mut self, outcome: Result<(), String>) -> (r: Result<usize, FlushError>)
        requires
            old(self)@.wf(),
            old(self)@.batch is Some,
        ensures
            final(self)@ == old(self)@.finish_flush(outcome is Ok),
            final(self)@.wf(),
            final(self)@.batch is None,
            outcome is Ok ==> r == Ok::<usize, FlushError>(old(self)@.in_flight().len() as usize),
            outcome matches Err(e) ==> r matches Err(FlushError::Store(t)) && t == e,
    {
        let n = match self.batch {
            Some(n) => n,
            None => 0,
        };
        self.batch = None;
        match outcome {
            Ok(()) => {
                let rest = self.buffer.split_off(n);
                self.buffer = rest;
                Ok(n)
            },
            Err(e) => Err(FlushError::Store(e)),
        }
    }

    /// Stops accepting records and plans the drain: the first call starts a
    /// flush of everything buffered (or reports `Busy` while another flush
    /// runs, or `Empty`); a later call finds the writer closed already and
    /// plans nothing, so it moves no record.
    pub fn close(&mut self) -> (r: FlushPlan)
        requires
            old(self)@.wf(),
        ensures
            final(self)@ == old(self)@.shut(),
            final(self)@.wf(),
            final(self)@.closed,
            old(self)@.closed ==> r is Empty,
            !old(self)@.closed ==> (r is Busy <==> old(self)@.batch is Some),
            !old(self)@.closed ==> (r is Empty <==> (old(self)@.batch is None
                && old(self)@.buffer.len() == 0)),
            r matches FlushPlan::Store(b) ==> b@ == old(self)@.buffer && b@ == final(self)@.in_flight(),
    {
        if self.closed {
            return FlushPlan::Empty;
        }
        self.closed = true;
        self.begin_flush()
    }
}

/// A second flush requested while one runs makes no store call and changes
/// nothing; when the first one succeeds, exactly the records accepted after
/// it began stay buffered, so no record goes into two batches, and a waiting
/// flush with nothing accepted since finds nothing to store.
pub proof fn lemma_one_flush_in_flight(s: WriterState, t: WriterState)
    requires
        s.wf(),
        s.batch is None,
        s.buffer.len() > 0,
        t.wf(),
        t.batch == s.begin_flush().batch,
        t.buffer.len() >= s.buffer.len(),
        t.buffer.take(s.buffer.len() as int) == s.buffer,
    ensures
        s.begin_flush().in_flight() == s.buffer,
        s.begin_flush().begin_flush() == s.begin_flush(),
        t.begin_flush() == t,
        t.in_flight() == s.buffer,
        t.buffer == s.buffer + t.finish_flush(true).buffer,
        s.begin_flush().finish_flush(true).buffer.len() == 0,
        s.begin_flush().finish_flush(true).begin_flush() == s.begin_flush().finish_flush(true),
{
    assert(t.in_flight() =~= s.buffer);
    assert(s.begin_flush().in_flight() =~= s.buffer);
    assert(t.buffer =~= s.buffer + t.finish_flush(true).buffer);
}

/// A flush that the store refused drops nothing: the buffer is as it was, and
/// the next flush carries the same records again.
pub proof fn lemma_failed_flush_keeps_buffer(s: WriterState)
    requires
        s.wf(),
        s.batch is None,
        s.buffer.len() > 0,
    ensures
        s.begin_flush().finish_flush(false).buffer == s.buffer,
        s.begin_flush().finish_flush(false).begin_flush().in_flight() == s.begin_flush().in_flight(),
{
    assert(s.begin_flush().in_flight() =~= s.buffer);
    assert(s.begin_flush().finish_flush(false).begin_flush().in_flight() =~= s.buffer);
}

/// A record accepted while a flush runs is not in that batch, and stays
/// buffered whatever the flush's outcome.
pub proof fn lemma_accept_during_flush(s: WriterState, e: LogEntry, stored: bool)
    requires
        s.wf(),
        s.batch is Some,
        !s.closed,
    ensures
        s.accept(e).in_flight() == s.in_flight(),
        s.accept(e).finish_flush(stored).buffer.last() == e,
        s.accept(e).finish_flush(stored).buffer.len() > 0,
{
    assert(s.accept(e).in_flight() =~= s.in_flight());
}

/// Closing an open writer with no flush under way drains every record
/// accepted before: the drain's batch is the whole buffer, once the store
/// takes it nothing is left, and no record is accepted any more.
pub proof fn lemma_close_drains(s: WriterState, e: LogEntry)
    requires
        s.wf(),
        s.batch is None,
        !s.closed,
    ensures
        s.shut().closed,
        s.shut().in_flight() == s.buffer,
        s.shut().finish_flush(true).buffer.len() == 0,
        s.shut().finish_flush(true).accept(e) == s.shut().finish_flush(true),
{
    assert(s.shut().in_flight() =~= s.buffer);
    if s.buffer.len() > 0 {
        assert(s.shut().finish_flush(true).buffer =~= Seq::<LogEntry>::empty());
    }
}

/// Closing twice: once the first close's drain has succeeded, the second
/// close finds the writer closed and empty, changes nothing and has nothing
/// to flush.
pub proof fn lemma_close_idempotent(s: WriterState)
    requires
        s.wf(),
        s.batch is None,
    ensures
        ({
            let drained = s.shut().finish_flush(true);
            &&& drained.closed
            &&& drained.shut() == drained
            &&& (!s.closed ==> drained.buffer.len() == 0 && drained.begin_flush() == drained)
        }),
{
    if !s.closed && s.buffer.len() > 0 {
        assert(s.shut().finish_flush(true).buffer =~= Seq::<LogEntry>::empty());
    }
}

} // verus!
