//! The transcript of one query: what is written to its log, and what is
//! remembered of it for the model.

use crate::cycle::{Chunk, ChunkModel};
use crate::text::{clone_strings, glue, decimal, push_decimal, replace, replace_str, views};
use vstd::prelude::*;
use vstd::string::StringExecFns;

verus! {

/// The name of a session's log file, by the time stamp of its start: the
/// stamp with `.log` after it, `T` turned into `_`, `Z` left out and `:`
/// turned into `-`.
pub open spec fn log_name(stamp: Seq<char>) -> Seq<char> {
    replace(replace(replace(stamp + ".log"@, "T"@, "_"@), "Z"@, ""@), ":"@, "-"@)
}

/// A text on one line: every line feed written as `\n`.
pub open spec fn one_line(text: Seq<char>) -> Seq<char> {
    replace(text, "\n"@, "\\n"@)
}

/// The head of a session's log: the time stamp and the query.
pub open spec fn log_head(stamp: Seq<char>, query: Seq<char>) -> Seq<char> {
    "Timestamp: "@ + stamp + "\nQuery: "@ + one_line(query)
}

/// The entry that records the tool calls of a session.
pub open spec fn tool_calls_entry(calls: Seq<char>) -> Seq<char> {
    "\nTool calls: "@ + one_line(calls) + "\n\n"@
}

/// The end of a session's log: the time taken and the end mark.
pub open spec fn log_tail(duration: nat) -> Seq<char> {
    "\n\nDuration: "@ + decimal(duration) + " ms"@ + "\n[EOF]"@
}

/// What the log records of a chunk: ordinary output as it is, a failure
/// marked as one.
pub open spec fn log_entry(chunk: ChunkModel) -> Seq<char> {
    match chunk {
        ChunkModel::Data(t) => t,
        ChunkModel::Failure(t) => "[Error]: "@ + t,
    }
}

/// The transcript of one query: the session it belongs to, the time of its
/// start in milliseconds, and the entries written so far.
#[derive(Debug)]
pub struct SessionLogger {
    pub session_id: String,
    pub started: u64,
    pub entries: Vec<String>,
}

impl SessionLogger {
    /// Writes the name of a session's log file.
    pub fn file_name(stamp: &str) -> (out: String)
        ensures
            out@ == log_name(stamp@),
    {
        let name = glue(stamp, ".log");
        let name = replace_str(name.as_str(), "T", "_");
        let name = replace_str(name.as_str(), "Z", "");
        replace_str(name.as_str(), ":", "-")
    }

    /// Opens a transcript: the logger, and the head to write to its file.
    /// `stamp` is the time stamp of the start, `now` the same time in
    /// milliseconds.
    pub fn new(session_id: String, query: &str, stamp: &str, now: u64) -> (r: (
        SessionLogger,
        String,
    ))
        ensures
            r.0.session_id == session_id,
            r.0.started == now,
            r.0.entries@.len() == 0,
            r.1@ == log_head(stamp@, query@),
    {
        let mut head = String::from_str("Timestamp: ");
        head.append(stamp);
        head.append("\nQuery: ");
        let line = replace_str(query, "\n", "\\n");
        head.append(line.as_str());
        (SessionLogger { session_id, started: now, entries: Vec::new() }, head)
    }

    /// Writes the entry that records the tool calls, given as JSON text.
    pub fn write_tool_calls(&self, calls: &str) -> (out: String)
        ensures
            out@ == tool_calls_entry(calls@),
    {
        let mut out = String::from_str("\nTool calls: ");
        let line = replace_str(calls, "\n", "\\n");
        out.append(line.as_str());
        out.append("\n\n");
        out
    }

    /// Records a chunk of the response stream: the entry is remembered and
    /// handed back to be written to the file.
    pub fn write(&mut self, chunk: &Chunk) -> (out: String)
        ensures
            out@ == log_entry(chunk@),
            final(self).session_id == old(self).session_id,
            final(self).started == old(self).started,
            views(final(self).entries@) == views(old(self).entries@).push(log_entry(chunk@)),
    {
        let out = match chunk {
            Chunk::Data(t) => t.clone(),
            Chunk::Failure(t) => glue("[Error]: ", t.as_str()),
        };
        self.entries.push(out.clone());
        assert(views(self.entries@) =~= views(old(self).entries@).push(log_entry(chunk@)));
        out
    }

    /// The entries written so far, in order.
    pub fn results(&self) -> (out: Vec<String>)
        ensures
            out@ == self.entries@,
    {
        clone_strings(&self.entries)
    }

    /// The milliseconds since the transcript was opened; 0 where the clock
    /// stands before that.
    pub fn exec_time(&self, now: u64) -> (ms: u64)
        ensures
            ms == if now >= self.started {
                now - self.started
            } else {
                0
            },
    {
        if now >= self.started {
            now - self.started
        } else {
            0
        }
    }

    /// Closes the transcript: the end to write to its file.
    pub fn finish(self, now: u64) -> (out: String)
        ensures
            out@ == log_tail(
                if now >= self.started {
                    (now - self.started) as nat
                } else {
                    0
                },
            ),
    {
        let ms = self.exec_time(now);
        let mut out = String::from_str("\n\nDuration: ");
        push_decimal(&mut out, ms);
        out.append(" ms");
        out.append("\n[EOF]");
        out
    }
}

} // verus!
