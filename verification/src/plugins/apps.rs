//! Starting and closing applications.

use crate::json::{fields_view, find_field, lookup, JsonModel, JsonValue};
use crate::text::{
    chars_of, find_line_end, line_end, parse_signed, same_text, signed_value, slice_chars, trim,
    trim_bounds,
};
use vstd::prelude::*;

verus! {

/// What is asked of an application.
#[derive(Debug, Clone, Copy, PartialEq, Eq, Structural)]
pub enum ActionMode {
    Open,
    Close,
}

/// A request to the application tool: what to do, and to which application.
#[derive(Debug)]
pub struct QueryData {
    pub mode: ActionMode,
    pub app: String,
}

/// What a word asks of an application.
pub open spec fn mode_of(word: Seq<char>) -> Option<ActionMode> {
    if word == "open"@ {
        Some(ActionMode::Open)
    } else if word == "close"@ {
        Some(ActionMode::Close)
    } else {
        None
    }
}

/// The request that a posted document holds: `mode` and `app` are needed.
pub open spec fn request_of(doc: JsonModel) -> Option<(ActionMode, Seq<char>)> {
    match doc {
        JsonModel::Object(f) => match (lookup(f, "mode"@), lookup(f, "app"@)) {
            (Some(JsonModel::Str(word)), Some(JsonModel::Str(app))) => match mode_of(word) {
                Some(mode) => Some((mode, app)),
                None => None,
            },
            _ => None,
        },
        _ => None,
    }
}

impl QueryData {
    /// Reads a request from a posted document.
    pub fn decode(doc: &JsonValue) -> (r: Option<QueryData>)
        ensures
            match r {
                Some(q) => request_of(doc@) == Some((q.mode, q.app@)),
                None => request_of(doc@) is None,
            },
    {
        match doc {
            JsonValue::Object(f) => {
                assert(doc@ == JsonModel::Object(fields_view(f@)));
                let mode = match find_field(f, "mode") {
                    Some(JsonValue::Str(word)) => {
                        if same_text(word.as_str(), "open") {
                            ActionMode::Open
                        } else if same_text(word.as_str(), "close") {
                            ActionMode::Close
                        } else {
                            return None;
                        }
                    },
                    _ => { return None; },
                };
                match find_field(f, "app") {
                    Some(JsonValue::Str(app)) => Some(QueryData { mode, app: app.clone() }),
                    _ => None,
                }
            },
            _ => None,
        }
    }
}

/// The process that one line of a list of processes names: a whole number
/// greater than 1, with white space around it at most.
pub open spec fn line_pid(line: Seq<char>) -> Option<i32> {
    match signed_value(trim(line)) {
        Some(p) => if p > 1 {
            Some(p)
        } else {
            None
        },
        None => None,
    }
}

/// The processes that the lines of a list name, in order; lines that name
/// none are passed over.
pub open spec fn listed_pids(s: Seq<char>) -> Seq<i32>
    decreases s.len(),
{
    if s.len() == 0 {
        Seq::empty()
    } else {
        let e = line_end(s);
        let rest = if 0 <= e < s.len() {
            s.skip(e + 1)
        } else {
            Seq::empty()
        };
        let found = match line_pid(s.take(e)) {
            Some(p) => seq![p],
            None => Seq::empty(),
        };
        found + listed_pids(rest)
    }
}

/// Reads a list of processes, one number on each line.
pub fn process_list(output: &str) -> (pids: Vec<i32>)
    ensures
        pids@ == listed_pids(output@),
        forall|i: int| 0 <= i < pids@.len() ==> pids@[i] > 1,
{
    let cs = chars_of(output);
    let mut pids: Vec<i32> = Vec::new();
    let mut pos: usize = 0;
    proof {
        assert(cs@.skip(0) == cs@);
        assert(pids@ + listed_pids(cs@) == listed_pids(cs@));
    }
    while pos < cs.len()
        invariant
            pos <= cs.len(),
            listed_pids(cs@) == pids@ + listed_pids(cs@.skip(pos as int)),
            forall|i: int| 0 <= i < pids@.len() ==> pids@[i] > 1,
        decreases cs.len() - pos,
    {
        let ghost rest = cs@.skip(pos as int);
        let ghost before = pids@;
        let end = find_line_end(cs.as_slice(), pos);
        let line = slice_chars(cs.as_slice(), pos, end);
        assert(line@ == rest.take(end - pos));
        let (a, b) = trim_bounds(line.as_slice());
        let word = slice_chars(line.as_slice(), a, b);
        match parse_signed(word.as_slice()) {
            Some(p) => {
                if p > 1 {
                    pids.push(p);
                }
            },
            None => {},
        }
        let next = if end < cs.len() {
            end + 1
        } else {
            end
        };
        proof {
            let tail = if end < cs.len() {
                rest.skip(end - pos + 1)
            } else {
                Seq::empty()
            };
            assert(tail == cs@.skip(next as int));
            let here = match line_pid(rest.take(end - pos)) {
                Some(p) => seq![p],
                None => Seq::<i32>::empty(),
            };
            assert(pids@ == before + here);
            assert(before + (here + listed_pids(tail)) == (before + here) + listed_pids(tail));
        }
        pos = next;
    }
    proof {
        assert(cs@.skip(pos as int).len() == 0);
        assert(pids@ + Seq::<i32>::empty() == pids@);
    }
    pids
}

} // verus!
