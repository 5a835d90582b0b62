//! Waiting for a given time, with a countdown at its end.

use crate::json::{fields_view, find_field, found, lookup, JsonModel, JsonValue};
use crate::settings::as_number;
use crate::text::{
    chars_of, decimal, join, join_strings, parse_digits, push_decimal, views,
};
use vstd::prelude::*;
use vstd::string::StringExecFns;

verus! {

/// A request to the wait tool: the time to wait, in parts.
#[derive(Debug, Clone, Copy, PartialEq, Eq, Structural)]
pub struct QueryData {
    pub hours: Option<u64>,
    pub mins: Option<u64>,
    pub secs: Option<u64>,
    pub millis: Option<u64>,
}

/// A part of the time: a number, or absent (the inner `None`); anything else
/// does not fit.
pub open spec fn optional_part(v: Option<JsonModel>) -> Option<Option<u64>> {
    match v {
        None => Some(None),
        Some(JsonModel::Null) => Some(None),
        Some(v) => match as_number(Some(v), u64::MAX) {
            Some(n) => Some(Some(n)),
            None => None,
        },
    }
}

/// The request that a posted document holds: each part is a number, `null`
/// or absent.
pub open spec fn request_of(doc: JsonModel) -> Option<QueryData> {
    match doc {
        JsonModel::Object(f) => match (
            optional_part(lookup(f, "hours"@)),
            optional_part(lookup(f, "mins"@)),
            optional_part(lookup(f, "secs"@)),
            optional_part(lookup(f, "millis"@)),
        ) {
            (Some(hours), Some(mins), Some(secs), Some(millis)) => Some(
                QueryData { hours, mins, secs, millis },
            ),
            _ => None,
        },
        _ => None,
    }
}

/// Reads a part of the time.
fn get_part(v: Option<&JsonValue>) -> (r: Option<Option<u64>>)
    ensures
        r == optional_part(found(v)),
{
    match v {
        None => Some(None),
        Some(JsonValue::Null) => Some(None),
        Some(JsonValue::Number(n)) => {
            let cs = chars_of(n.as_str());
            match parse_digits(cs.as_slice(), u64::MAX) {
                Some(n) => Some(Some(n)),
                None => None,
            }
        },
        Some(_) => None,
    }
}

/// The number of a part that may be absent.
pub open spec fn part(p: Option<u64>) -> int {
    match p {
        Some(n) => n as int,
        None => 0,
    }
}

/// The whole seconds of a request.
pub open spec fn total_seconds(q: QueryData) -> int {
    part(q.millis) / 1000 + part(q.secs) + part(q.mins) * 60 + part(q.hours) * 3600
}

/// The seconds of the countdown at the end of a wait.
pub const COUNTDOWN_SECONDS: u64 = 10;

/// The text of one part of the time: the number, the unit, and an `s` for
/// any number but one.
pub open spec fn part_text(n: u64, unit: Seq<char>) -> Seq<char> {
    if n == 1 {
        decimal(n as nat) + " "@ + unit
    } else {
        decimal(n as nat) + " "@ + unit + "s"@
    }
}

/// The texts of the parts of a request that are there, largest unit first.
pub open spec fn part_texts(q: QueryData) -> Seq<Seq<char>> {
    let hours = match q.hours {
        Some(n) => seq![part_text(n, "hour"@)],
        None => Seq::empty(),
    };
    let mins = match q.mins {
        Some(n) => hours.push(part_text(n, "minute"@)),
        None => hours,
    };
    let secs = match q.secs {
        Some(n) => mins.push(part_text(n, "second"@)),
        None => mins,
    };
    match q.millis {
        Some(n) => secs.push(decimal(n as nat) + " ms"@),
        None => secs,
    }
}

/// The line that announces the second `r` of the countdown.
pub open spec fn remaining_text(r: nat) -> Seq<char> {
    decimal(r) + " seconds remaining\n"@
}

/// The lines of a countdown from `from` down to 1, then the last word.
pub open spec fn countdown_from(from: nat) -> Seq<Seq<char>>
    decreases from,
{
    if from == 0 {
        seq!["Wait completed."@]
    } else {
        seq![remaining_text(from)] + countdown_from((from - 1) as nat)
    }
}

/// Writes the text of one part of the time.
fn write_part(n: u64, unit: &str) -> (out: String)
    ensures
        out@ == part_text(n, unit@),
{
    let mut out = String::new();
    push_decimal(&mut out, n);
    assert(Seq::<char>::empty() + decimal(n as nat) == decimal(n as nat));
    out.append(" ");
    out.append(unit);
    if n != 1 {
        out.append("s");
    }
    out
}

impl QueryData {
    /// Reads a request from a posted document.
    pub fn decode(doc: &JsonValue) -> (r: Option<QueryData>)
        ensures
            r == request_of(doc@),
    {
        match doc {
            JsonValue::Object(f) => {
                assert(doc@ == JsonModel::Object(fields_view(f@)));
                let hours = match get_part(find_field(f, "hours")) {
                    Some(p) => p,
                    None => { return None; },
                };
                let mins = match get_part(find_field(f, "mins")) {
                    Some(p) => p,
                    None => { return None; },
                };
                let secs = match get_part(find_field(f, "secs")) {
                    Some(p) => p,
                    None => { return None; },
                };
                let millis = match get_part(find_field(f, "millis")) {
                    Some(p) => p,
                    None => { return None; },
                };
                Some(QueryData { hours, mins, secs, millis })
            },
            _ => None,
        }
    }

    /// The whole seconds to wait; none where they are more than can be
    /// counted.
    pub fn total_secs(&self) -> (r: Option<u64>)
        ensures
            match r {
                Some(t) => t == total_seconds(*self),
                None => total_seconds(*self) > u64::MAX,
            },
    {
        let millis: u64 = match self.millis {
            Some(n) => n / 1000,
            None => 0,
        };
        let secs: u64 = match self.secs {
            Some(n) => n,
            None => 0,
        };
        let mins: u64 = match self.mins {
            Some(n) => n,
            None => 0,
        };
        let hours: u64 = match self.hours {
            Some(n) => n,
            None => 0,
        };
        let total: u128 = millis as u128 + secs as u128 + (mins as u128) * 60 + (hours as u128)
            * 3600;
        if total <= u64::MAX as u128 {
            Some(total as u64)
        } else {
            None
        }
    }

    /// The line that says how long the wait is.
    pub fn describe(&self) -> (out: String)
        ensures
            out@ == "Total wait time: "@ + join(part_texts(*self), ", "@) + "\n"@,
    {
        let mut parts: Vec<String> = Vec::new();
        match self.hours {
            Some(n) => {
                parts.push(write_part(n, "hour"));
            },
            None => {},
        }
        match self.mins {
            Some(n) => {
                parts.push(write_part(n, "minute"));
            },
            None => {},
        }
        match self.secs {
            Some(n) => {
                parts.push(write_part(n, "second"));
            },
            None => {},
        }
        match self.millis {
            Some(n) => {
                let mut text = String::new();
                push_decimal(&mut text, n);
                assert(Seq::<char>::empty() + decimal(n as nat) == decimal(n as nat));
                text.append(" ms");
                parts.push(text);
            },
            None => {},
        }
        assert(views(parts@) =~= part_texts(*self));
        let mut out = String::from_str("Total wait time: ");
        let list = join_strings(&parts, ", ");
        out.append(list.as_str());
        out.append("\n");
        out
    }
}

/// The seconds to wait in silence before the countdown begins.
pub fn silent_seconds(total: u64) -> (s: u64)
    ensures
        s == if total > COUNTDOWN_SECONDS {
            total - COUNTDOWN_SECONDS
        } else {
            0
        },
{
    if total > COUNTDOWN_SECONDS {
        total - COUNTDOWN_SECONDS
    } else {
        0
    }
}

/// The lines of the countdown of a wait of `total` seconds, one for each
/// second but the last, and the last word.
pub fn countdown(total: u64) -> (lines: Vec<String>)
    requires
        total > 0,
    ensures
        views(lines@) == countdown_from(
            if total > COUNTDOWN_SECONDS {
                (COUNTDOWN_SECONDS - 1) as nat
            } else {
                (total - 1) as nat
            },
        ),
{
    let first: u64 = if total > COUNTDOWN_SECONDS {
        COUNTDOWN_SECONDS - 1
    } else {
        total - 1
    };
    let mut lines: Vec<String> = Vec::new();
    let mut r: u64 = first;
    assert(views(lines@) + countdown_from(r as nat) == countdown_from(first as nat));
    while r > 0
        invariant
            views(lines@) + countdown_from(r as nat) == countdown_from(first as nat),
        decreases r,
    {
        let ghost before = views(lines@);
        let mut line = String::new();
        push_decimal(&mut line, r);
        assert(Seq::<char>::empty() + decimal(r as nat) == decimal(r as nat));
        line.append(" seconds remaining\n");
        lines.push(line);
        proof {
            assert(views(lines@) =~= before.push(remaining_text(r as nat)));
            assert(before.push(remaining_text(r as nat)) + countdown_from((r - 1) as nat)
                =~= before + (seq![remaining_text(r as nat)] + countdown_from((r - 1) as nat)));
        }
        r -= 1;
    }
    let ghost before = views(lines@);
    lines.push(String::from_str("Wait completed."));
    assert(views(lines@) =~= before + countdown_from(0));
    lines
}

} // verus!
