//! The live log: events from the child's output, the buffer they are
//! applied to, and the scanners that turn raw output into events.

use vstd::prelude::*;
use crate::text::{strip_trailing_cr, without_trailing_cr};

verus! {

/// One update of the log.
#[derive(Clone, Debug, PartialEq, Eq)]
pub enum LogEvent {
    /// A new line at the end.
    Append(String),
    /// New text for the last line.
    Replace(String),
}

/// What a `LogEvent` stands for.
pub enum LogEventView {
    Append(Seq<char>),
    Replace(Seq<char>),
}

impl View for LogEvent {
    type V = LogEventView;

    open spec fn view(&self) -> LogEventView {
        match self {
            LogEvent::Append(line) => LogEventView::Append(line@),
            LogEvent::Replace(line) => LogEventView::Replace(line@),
        }
    }
}

impl DeepView for LogEvent {
    type V = LogEventView;

    open spec fn deep_view(&self) -> LogEventView {
        self@
    }
}

/// The log after one event: `Append` adds a line; `Replace` overwrites the
/// last line, and adds one where there is none.
pub open spec fn applied(lines: Seq<Seq<char>>, event: LogEventView) -> Seq<Seq<char>> {
    match event {
        LogEventView::Append(line) => lines.push(line),
        LogEventView::Replace(line) => if lines.len() == 0 {
            lines.push(line)
        } else {
            lines.update(lines.len() - 1, line)
        },
    }
}

/// The log after a sequence of events, applied in order.
pub open spec fn applied_all(lines: Seq<Seq<char>>, events: Seq<LogEventView>) -> Seq<Seq<char>>
    decreases events.len(),
{
    if events.len() == 0 {
        lines
    } else {
        applied(applied_all(lines, events.drop_last()), events.last())
    }
}

/// The lines shown in the log view, oldest first.
#[derive(Clone, Debug, PartialEq, Eq)]
pub struct LogBuffer {
    lines: Vec<String>,
}

impl View for LogBuffer {
    type V = Seq<Seq<char>>;

    closed spec fn view(&self) -> Seq<Seq<char>> {
        self.lines.deep_view()
    }
}

impl LogBuffer {
    /// An empty log.
    pub fn new() -> (log: LogBuffer)
        ensures
            log@ == Seq::<Seq<char>>::empty(),
    {
        let log = LogBuffer { lines: Vec::new() };
        assert(log@ =~= Seq::<Seq<char>>::empty());
        log
    }

    /// Number of lines.
    pub fn len(&self) -> (n: usize)
        ensures
            n == self@.len(),
    {
        self.lines.len()
    }

    /// The line at `index`.
    pub fn line(&self, index: usize) -> (text: &str)
        requires
            index < self@.len(),
        ensures
            text@ == self@[index as int],
    {
        self.lines[index].as_str()
    }

    /// The lines, oldest first.
    pub fn lines(&self) -> (lines: &Vec<String>)
        ensures
            lines.deep_view() == self@,
    {
        &self.lines
    }

    /// Adds a line at the end.
    pub fn push_line(&mut self, line: String)
        ensures
            final(self)@ == old(self)@.push(line@),
    {
        self.lines.push(line);
        assert(self@ =~= old(self)@.push(line@));
    }

    /// Applies one event.
    pub fn apply(&mut self, event: LogEvent)
        ensures
            final(self)@ == applied(old(self)@, event@),
    {
        match event {
            LogEvent::Append(line) => {
                self.lines.push(line);
            },
            LogEvent::Replace(line) => {
                let n = self.lines.len();
                if n == 0 {
                    self.lines.push(line);
                } else {
                    self.lines.set(n - 1, line);
                }
            },
        }
        assert(self@ =~= applied(old(self)@, event@));
    }

    /// Applies the events that were waiting, in the order they arrived.
    pub fn drain(&mut self, events: Vec<LogEvent>)
        ensures
            final(self)@ == applied_all(old(self)@, events.deep_view()),
    {
        let ghost all = events.deep_view();
        for event in it: events
            invariant
                it.seq().map_values(|e: LogEvent| e@) =~= all,
                self@ == applied_all(old(self)@, all.take(it.index() as int)),
        {
            proof {
                let upto = all.take(it.index() as int);
                let next = all.take(it.index() + 1);
                assert(next.drop_last() =~= upto);
                assert(next.last() == event@);
            }
            self.apply(event);
        }
        proof {
            assert(all.take(all.len() as int) =~= all);
        }
    }
}

/// A `Replace` that follows an `Append` overwrites the line that was just
/// added: the log is as if that line had been appended with the new text.
pub proof fn lemma_replace_after_append(lines: Seq<Seq<char>>, first: Seq<char>, second: Seq<char>)
    ensures
        applied(applied(lines, LogEventView::Append(first)), LogEventView::Replace(second))
            == lines.push(second),
{
    assert(lines.push(first).update(lines.len() as int, second) =~= lines.push(second));
}

/// On an empty log `Replace` does what `Append` does.
pub proof fn lemma_replace_on_empty_is_append(line: Seq<char>)
    ensures
        applied(Seq::empty(), LogEventView::Replace(line)) == applied(
            Seq::empty(),
            LogEventView::Append(line),
        ),
{
}

/// `Replace` never changes the number of lines of a log that has any, and
/// never touches a line but the last.
pub proof fn lemma_replace_keeps_earlier_lines(lines: Seq<Seq<char>>, line: Seq<char>)
    requires
        lines.len() > 0,
    ensures
        applied(lines, LogEventView::Replace(line)).len() == lines.len(),
        applied(lines, LogEventView::Replace(line)).last() == line,
        applied(lines, LogEventView::Replace(line)).drop_last() == lines.drop_last(),
{
    assert(applied(lines, LogEventView::Replace(line)).drop_last() =~= lines.drop_last());
}

/// Applying two batches one after the other is applying them as one.
pub proof fn lemma_applied_all_concat(
    lines: Seq<Seq<char>>,
    first: Seq<LogEventView>,
    second: Seq<LogEventView>,
)
    ensures
        applied_all(applied_all(lines, first), second) == applied_all(lines, first + second),
    decreases second.len(),
{
    if second.len() == 0 {
        assert(first + second =~= first);
    } else {
        lemma_applied_all_concat(lines, first, second.drop_last());
        assert((first + second).drop_last() =~= first + second.drop_last());
        assert((first + second).last() == second.last());
    }
}

/// The event for one line read from a pipe: always an `Append`, without
/// the carriage returns at the line's end.
pub fn piped_event(line: &str) -> (event: LogEvent)
    ensures
        event@ == LogEventView::Append(without_trailing_cr(line@)),
{
    LogEvent::Append(String::from_str(strip_trailing_cr(line)))
}

/// The text that a run of raw output bytes is shown as.
pub uninterp spec fn lossy_text(bytes: Seq<u8>) -> Seq<char>;

/// Calls `String::from_utf8_lossy` and takes the text it gives as an owned
/// string. The text depends on the bytes alone; nothing more is claimed.
#[verifier::external_body]
fn decode_lossy(bytes: &Vec<u8>) -> (text: String)
    ensures
        text@ == lossy_text(bytes@),
{
    String::from_utf8_lossy(bytes).into_owned()
}

/// The byte that ends a line.
pub const LINE_FEED: u8 = 10;

/// The byte that sends the cursor back to the start of the line.
pub const CARRIAGE_RETURN: u8 = 13;

/// The event that flushing `text` gives: a line feed appends it, a carriage
/// return puts it in place of the last line.
pub fn flushed(text: String, terminator: u8) -> (event: LogEvent)
    requires
        terminator == LINE_FEED || terminator == CARRIAGE_RETURN,
    ensures
        event@ == if terminator == LINE_FEED {
            LogEventView::Append(text@)
        } else {
            LogEventView::Replace(text@)
        },
{
    if terminator == LINE_FEED {
        LogEvent::Append(text)
    } else {
        LogEvent::Replace(text)
    }
}

/// The bytes still unflushed after `chunk` was scanned with `pending`
/// already held: those that follow the last line feed or carriage return.
pub open spec fn scan_rest(pending: Seq<u8>, chunk: Seq<u8>) -> Seq<u8>
    decreases chunk.len(),
{
    if chunk.len() == 0 {
        pending
    } else if chunk.last() == LINE_FEED || chunk.last() == CARRIAGE_RETURN {
        Seq::empty()
    } else {
        scan_rest(pending, chunk.drop_last()).push(chunk.last())
    }
}

/// The events that scanning `chunk` gives with `pending` already held: one
/// for every line feed (an `Append`) and every carriage return (a
/// `Replace`), each with the text gathered since the one before.
pub open spec fn scan_events(pending: Seq<u8>, chunk: Seq<u8>) -> Seq<LogEventView>
    decreases chunk.len(),
{
    if chunk.len() == 0 {
        Seq::empty()
    } else {
        let earlier = scan_events(pending, chunk.drop_last());
        let held = scan_rest(pending, chunk.drop_last());
        if chunk.last() == LINE_FEED {
            earlier.push(LogEventView::Append(lossy_text(held)))
        } else if chunk.last() == CARRIAGE_RETURN {
            earlier.push(LogEventView::Replace(lossy_text(held)))
        } else {
            earlier
        }
    }
}

/// The event that the end of the stream gives: what is left of a partial
/// line, appended; nothing where nothing is left.
pub open spec fn final_event(pending: Seq<u8>) -> Option<LogEventView> {
    if pending.len() == 0 {
        None
    } else {
        Some(LogEventView::Append(lossy_text(pending)))
    }
}

/// Scans the raw output of a pseudo-terminal into log events.
#[derive(Clone, Debug, PartialEq, Eq)]
pub struct LineScanner {
    pending: Vec<u8>,
}

impl View for LineScanner {
    type V = Seq<u8>;

    closed spec fn view(&self) -> Seq<u8> {
        self.pending@
    }
}

impl LineScanner {
    /// A scanner that holds nothing.
    pub fn new() -> (scanner: LineScanner)
        ensures
            scanner@ == Seq::<u8>::empty(),
    {
        LineScanner { pending: Vec::new() }
    }

    /// Scans the next bytes read, and returns the events they complete.
    pub fn feed(&mut self, chunk: &[u8]) -> (events: Vec<LogEvent>)
        ensures
            events.deep_view() == scan_events(old(self)@, chunk@),
            final(self)@ == scan_rest(old(self)@, chunk@),
    {
        let mut events: Vec<LogEvent> = Vec::new();
        let mut i: usize = 0;
        assert(events.deep_view() =~= Seq::<LogEventView>::empty());
        while i < chunk.len()
            invariant
                i <= chunk.len(),
                events.deep_view() == scan_events(old(self)@, chunk@.take(i as int)),
                self@ == scan_rest(old(self)@, chunk@.take(i as int)),
            decreases chunk.len() - i,
        {
            let byte = chunk[i];
            let ghost held = events.deep_view();
            proof {
                assert(chunk@.take(i + 1).drop_last() =~= chunk@.take(i as int));
                assert(chunk@.take(i + 1).last() == byte);
            }
            if byte == LINE_FEED || byte == CARRIAGE_RETURN {
                let event = flushed(decode_lossy(&self.pending), byte);
                events.push(event);
                self.pending.clear();
                assert(events.deep_view() =~= held.push(event@));
                assert(self@ =~= Seq::<u8>::empty());
            } else {
                self.pending.push(byte);
            }
            i = i + 1;
        }
        proof {
            assert(chunk@.take(chunk@.len() as int) =~= chunk@);
        }
        events
    }

    /// Ends the stream: hands out what is left of a partial line.
    pub fn finish(&mut self) -> (event: Option<LogEvent>)
        ensures
            event.deep_view() == final_event(old(self)@),
            final(self)@ == Seq::<u8>::empty(),
    {
        if self.pending.len() == 0 {
            None
        } else {
            let text = decode_lossy(&self.pending);
            self.pending.clear();
            Some(LogEvent::Append(text))
        }
    }
}

/// How the output is cut into reads does not matter: scanning two chunks
/// one after the other gives the events, and leaves the bytes, that
/// scanning them as one chunk gives.
pub proof fn lemma_scan_is_streaming(pending: Seq<u8>, first: Seq<u8>, second: Seq<u8>)
    ensures
        scan_rest(scan_rest(pending, first), second) == scan_rest(pending, first + second),
        scan_events(pending, first) + scan_events(scan_rest(pending, first), second)
            == scan_events(pending, first + second),
    decreases second.len(),
{
    if second.len() == 0 {
        assert(first + second =~= first);
        assert(scan_events(pending, first) + Seq::<LogEventView>::empty() =~= scan_events(
            pending,
            first,
        ));
    } else {
        lemma_scan_is_streaming(pending, first, second.drop_last());
        assert((first + second).drop_last() =~= first + second.drop_last());
        assert((first + second).last() == second.last());
        let mid = scan_rest(pending, first);
        assert(scan_events(pending, first) + scan_events(mid, second) =~= scan_events(
            pending,
            first + second,
        ));
    }
}

/// A scan never emits more events than the chunk has bytes, and emits none
/// for a chunk without line feed and carriage return, which it keeps whole.
pub proof fn lemma_scan_counts(pending: Seq<u8>, chunk: Seq<u8>)
    ensures
        scan_events(pending, chunk).len() <= chunk.len(),
        (forall|i: int|
            0 <= i < chunk.len() ==> chunk[i] != LINE_FEED && chunk[i] != CARRIAGE_RETURN)
            ==> scan_events(pending, chunk).len() == 0 && scan_rest(pending, chunk) == pending
            + chunk,
    decreases chunk.len(),
{
    if chunk.len() == 0 {
        assert(pending + chunk =~= pending);
    } else {
        lemma_scan_counts(pending, chunk.drop_last());
        if forall|i: int|
            0 <= i < chunk.len() ==> chunk[i] != LINE_FEED && chunk[i] != CARRIAGE_RETURN {
            assert forall|i: int| 0 <= i < chunk.drop_last().len() implies chunk.drop_last()[i]
                != LINE_FEED && chunk.drop_last()[i] != CARRIAGE_RETURN by {
                assert(chunk.drop_last()[i] == chunk[i]);
            }
            assert(chunk.last() == chunk[chunk.len() - 1]);
            assert((pending + chunk.drop_last()).push(chunk.last()) =~= pending + chunk);
        }
    }
}

} // verus!
