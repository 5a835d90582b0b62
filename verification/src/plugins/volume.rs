//! Setting the machine's output volume.

use crate::json::{fields_view, find_field, lookup, JsonModel, JsonValue};
use crate::text::{chars_of, decimal, parse_signed, push_decimal, signed_value};
use vstd::prelude::*;
use vstd::string::StringExecFns;

verus! {

/// A request to the volume tool: a change of the volume in percent, or,
/// with `force`, the volume itself.
#[derive(Debug, Clone, Copy, PartialEq, Eq, Structural)]
pub struct QueryData {
    pub delta: i32,
    pub force: bool,
}

/// The request that a posted document holds: `delta` has to be a whole
/// number; `force` may be absent, and then is not set.
pub open spec fn request_of(doc: JsonModel) -> Option<QueryData> {
    match doc {
        JsonModel::Object(f) => match lookup(f, "delta"@) {
            Some(JsonModel::Number(n)) => match signed_value(n) {
                Some(delta) => match lookup(f, "force"@) {
                    None => Some(QueryData { delta, force: false }),
                    Some(JsonModel::Bool(force)) => Some(QueryData { delta, force }),
                    Some(_) => None,
                },
                None => None,
            },
            _ => None,
        },
        _ => None,
    }
}

/// The volume to set, in percent: what the request asks for, held within 0
/// and 100.
pub open spec fn target(current: u8, q: QueryData) -> u8 {
    let wanted: int = if q.force {
        q.delta as int
    } else {
        current + q.delta
    };
    if wanted < 0 {
        0
    } else if wanted > 100 {
        100
    } else {
        wanted as u8
    }
}

impl QueryData {
    /// Reads a request from a posted document.
    pub fn decode(doc: &JsonValue) -> (r: Option<QueryData>)
        ensures
            r == request_of(doc@),
    {
        match doc {
            JsonValue::Object(f) => {
                assert(doc@ == JsonModel::Object(fields_view(f@)));
                let delta = match find_field(f, "delta") {
                    Some(JsonValue::Number(n)) => {
                        let cs = chars_of(n.as_str());
                        match parse_signed(cs.as_slice()) {
                            Some(d) => d,
                            None => { return None; },
                        }
                    },
                    _ => { return None; },
                };
                match find_field(f, "force") {
                    None => Some(QueryData { delta, force: false }),
                    Some(JsonValue::Bool(force)) => Some(QueryData { delta, force: *force }),
                    Some(_) => None,
                }
            },
            _ => None,
        }
    }

    /// The volume to set, by the volume as it is.
    pub fn target_volume(&self, current: u8) -> (v: u8)
        ensures
            v == target(current, *self),
    {
        let wanted: i64 = if self.force {
            self.delta as i64
        } else {
            current as i64 + self.delta as i64
        };
        if wanted < 0 {
            0
        } else if wanted > 100 {
            100
        } else {
            wanted as u8
        }
    }
}

/// The answer to a request that set the volume.
pub fn volume_message(volume: u8) -> (out: String)
    ensures
        out@ == "Set volume to "@ + decimal(volume as nat) + "%"@,
{
    let mut out = String::from_str("Set volume to ");
    push_decimal(&mut out, volume as u64);
    out.append("%");
    out
}

} // verus!
