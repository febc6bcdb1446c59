//! The logging sink.
//!
//! Instead of a process-wide logger singleton, the worker receives an
//! explicitly constructed sink and appends typed events to it. The
//! contracts of the functions that log state exactly which events they
//! append, so a caller knows what its sink holds afterwards; rendering
//! the entries to a console is the owner's business.

use vstd::prelude::*;

verus! {

/// One event the worker reports.
#[derive(Debug, Clone, Copy, PartialEq, Eq, Structural)]
pub enum LogEvent {
    /// The worker thread has started.
    WorkerStarted,
    /// The worker thread is shutting down cleanly.
    WorkerShutdown,
    /// No connection matched the adapter identity; the search is falling
    /// back to comparing device descriptions.
    DescriptionFallback,
}

impl LogEvent {
    /// The display text of this event.
    pub fn message(&self) -> (r: &'static str)
        ensures
            r@ == self.spec_message(),
    {
        match self {
            LogEvent::WorkerStarted => "Starting COM thread",
            LogEvent::WorkerShutdown => "Shutting down COM thread",
            LogEvent::DescriptionFallback => "Failed to locate connection, comparing descriptions...",
        }
    }

    /// The text `message` returns for each event.
    pub open spec fn spec_message(self) -> Seq<char> {
        match self {
            LogEvent::WorkerStarted => "Starting COM thread"@,
            LogEvent::WorkerShutdown => "Shutting down COM thread"@,
            LogEvent::DescriptionFallback => "Failed to locate connection, comparing descriptions..."@,
        }
    }
}

/// An ordered sink of logged events.
#[derive(Debug)]
pub struct LogSink {
    entries: Vec<LogEvent>,
}

impl View for LogSink {
    type V = Seq<LogEvent>;

    closed spec fn view(&self) -> Seq<LogEvent> {
        self.entries@
    }
}

impl LogSink {
    /// Append one event.
    pub fn push(&mut self, event: LogEvent)
        ensures
            final(self)@ == old(self)@ + seq![event],
    {
        self.entries.push(event);
        proof {
            assert(self@ =~= old(self)@ + seq![event]);
        }
    }

    /// How many events have been logged.
    pub fn len(&self) -> (r: usize)
        ensures
            r == self@.len(),
    {
        self.entries.len()
    }

    /// The `i`-th logged event, oldest first.
    pub fn get(&self, i: usize) -> (r: LogEvent)
        requires
            i < self@.len(),
        ensures
            r == self@[i as int],
    {
        self.entries[i]
    }
}

/// Construct the empty logging sink that the worker and the screens
/// write to.
pub fn setup() -> (r: LogSink)
    ensures
        r@ == Seq::<LogEvent>::empty(),
{
    let sink = LogSink { entries: Vec::new() };
    proof {
        assert(sink@ =~= Seq::<LogEvent>::empty());
    }
    sink
}

} // verus!
