//! What the engine exchanges with the version-control backend.

use vstd::prelude::*;

verus! {

/// What a backend operation hands back: its payload, or an error message.
pub type BackendResult<T> = Result<T, String>;

/// One revision of the log, as the backend reports it.
#[derive(Clone, Debug, Default, PartialEq, Eq)]
pub struct LogEntry {
    pub graph: String,
    pub hash: String,
    pub date: String,
    pub author: String,
    pub refs: String,
    pub message: String,
}

/// The text of a `LogEntry`.
pub ghost struct LogEntryView {
    pub graph: Seq<char>,
    pub hash: Seq<char>,
    pub date: Seq<char>,
    pub author: Seq<char>,
    pub refs: Seq<char>,
    pub message: Seq<char>,
}

impl View for LogEntry {
    type V = LogEntryView;

    open spec fn view(&self) -> LogEntryView {
        LogEntryView {
            graph: self.graph@,
            hash: self.hash@,
            date: self.date@,
            author: self.author@,
            refs: self.refs@,
            message: self.message@,
        }
    }
}

/// The views of a sequence of entries.
pub open spec fn entries_view(entries: Seq<LogEntry>) -> Seq<LogEntryView> {
    entries.map_values(|e: LogEntry| e@)
}

} // verus!
