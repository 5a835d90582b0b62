//! Planned power operations: turning off, sleeping, rebooting, locking.

use crate::json::{fields_view, find_field, lookup, JsonModel, JsonValue};
use crate::settings::as_number;
use crate::text::{chars_of, decimal, parse_digits, push_decimal, same_text};
use vstd::prelude::*;
use vstd::string::StringExecFns;

verus! {

/// The seconds before a power operation where a request names none.
pub const DEFAULT_TIMEOUT: u64 = 3;

/// What is asked of the machine's power.
#[derive(Debug, Clone, Copy, PartialEq, Eq, Structural)]
pub enum PowerMode {
    TurnOff,
    Sleep,
    Reboot,
    Lock,
    Cancel,
}

/// A request to the power tool: the operation, and the seconds before it.
#[derive(Debug, Clone, Copy, PartialEq, Eq, Structural)]
pub struct QueryData {
    pub mode: PowerMode,
    pub timeout: u64,
}

/// The operation that a word names.
pub open spec fn mode_of(word: Seq<char>) -> Option<PowerMode> {
    if word == "turnoff"@ {
        Some(PowerMode::TurnOff)
    } else if word == "sleep"@ {
        Some(PowerMode::Sleep)
    } else if word == "reboot"@ {
        Some(PowerMode::Reboot)
    } else if word == "lock"@ {
        Some(PowerMode::Lock)
    } else if word == "cancel"@ {
        Some(PowerMode::Cancel)
    } else {
        None
    }
}

/// The request that a posted document holds: `mode` has to name an
/// operation; `timeout` may be absent, and then is the default.
pub open spec fn request_of(doc: JsonModel) -> Option<QueryData> {
    match doc {
        JsonModel::Object(f) => match lookup(f, "mode"@) {
            Some(JsonModel::Str(word)) => match mode_of(word) {
                Some(mode) => match lookup(f, "timeout"@) {
                    None => Some(QueryData { mode, timeout: DEFAULT_TIMEOUT }),
                    Some(v) => match as_number(Some(v), u64::MAX) {
                        Some(timeout) => Some(QueryData { mode, timeout }),
                        None => None,
                    },
                },
                None => None,
            },
            _ => None,
        },
        _ => None,
    }
}

/// How an operation is called in messages; cancelling is no operation.
pub open spec fn operation_name(mode: PowerMode) -> Option<Seq<char>> {
    match mode {
        PowerMode::TurnOff => Some("Turn off"@),
        PowerMode::Sleep => Some("Sleep"@),
        PowerMode::Reboot => Some("Reboot"@),
        PowerMode::Lock => Some("Lock session"@),
        PowerMode::Cancel => None,
    }
}

/// How an operation is called within a sentence.
pub open spec fn operation_name_lower(mode: PowerMode) -> Option<Seq<char>> {
    match mode {
        PowerMode::TurnOff => Some("turn off"@),
        PowerMode::Sleep => Some("sleep"@),
        PowerMode::Reboot => Some("reboot"@),
        PowerMode::Lock => Some("lock session"@),
        PowerMode::Cancel => None,
    }
}

/// What the user is told while an operation waits for its time.
#[derive(Debug, Clone, Copy, PartialEq, Eq, Structural)]
pub enum Notice {
    /// The operation is a few seconds away; shown for a moment.
    Soon(u64),
    /// Less than half a minute is left; shown once, and for longer.
    HalfMinute,
}

/// The seconds from which on every tick is announced.
pub const SOON_SECONDS: u64 = 6;

/// The seconds from which on the half-minute warning is due.
pub const HALF_MINUTE_SECONDS: u64 = 31;

/// The notice that is due with `remaining` seconds left, where `warned`
/// says that the half-minute warning was shown.
pub open spec fn notice_due(remaining: u64, warned: bool) -> Option<Notice> {
    if remaining <= SOON_SECONDS {
        Some(Notice::Soon(remaining))
    } else if !warned && remaining <= HALF_MINUTE_SECONDS {
        Some(Notice::HalfMinute)
    } else {
        None
    }
}

impl PowerMode {
    /// Reads the name of an operation.
    pub fn parse(word: &str) -> (r: Option<PowerMode>)
        ensures
            r == mode_of(word@),
    {
        if same_text(word, "turnoff") {
            Some(PowerMode::TurnOff)
        } else if same_text(word, "sleep") {
            Some(PowerMode::Sleep)
        } else if same_text(word, "reboot") {
            Some(PowerMode::Reboot)
        } else if same_text(word, "lock") {
            Some(PowerMode::Lock)
        } else if same_text(word, "cancel") {
            Some(PowerMode::Cancel)
        } else {
            None
        }
    }

    /// How the operation is called in messages.
    pub fn name(self) -> (r: Option<String>)
        ensures
            match r {
                Some(n) => operation_name(self) == Some(n@),
                None => operation_name(self) is None,
            },
    {
        match self {
            PowerMode::TurnOff => Some(String::from_str("Turn off")),
            PowerMode::Sleep => Some(String::from_str("Sleep")),
            PowerMode::Reboot => Some(String::from_str("Reboot")),
            PowerMode::Lock => Some(String::from_str("Lock session")),
            PowerMode::Cancel => None,
        }
    }

    /// How the operation is called within a sentence.
    pub fn name_lower(self) -> (r: Option<String>)
        ensures
            match r {
                Some(n) => operation_name_lower(self) == Some(n@),
                None => operation_name_lower(self) is None,
            },
    {
        match self {
            PowerMode::TurnOff => Some(String::from_str("turn off")),
            PowerMode::Sleep => Some(String::from_str("sleep")),
            PowerMode::Reboot => Some(String::from_str("reboot")),
            PowerMode::Lock => Some(String::from_str("lock session")),
            PowerMode::Cancel => None,
        }
    }
}

impl QueryData {
    /// The seconds before a power operation where a request names none.
    pub fn timeout_default() -> (t: u64)
        ensures
            t == DEFAULT_TIMEOUT,
    {
        DEFAULT_TIMEOUT
    }

    /// Reads a request from a posted document.
    pub fn decode(doc: &JsonValue) -> (r: Option<QueryData>)
        ensures
            r == request_of(doc@),
    {
        match doc {
            JsonValue::Object(f) => {
                assert(doc@ == JsonModel::Object(fields_view(f@)));
                let mode = match find_field(f, "mode") {
                    Some(JsonValue::Str(word)) => match PowerMode::parse(word.as_str()) {
                        Some(m) => m,
                        None => { return None; },
                    },
                    _ => { return None; },
                };
                match find_field(f, "timeout") {
                    None => Some(QueryData { mode, timeout: DEFAULT_TIMEOUT }),
                    Some(JsonValue::Number(n)) => {
                        let cs = chars_of(n.as_str());
                        match parse_digits(cs.as_slice(), u64::MAX) {
                            Some(timeout) => Some(QueryData { mode, timeout }),
                            None => None,
                        }
                    },
                    Some(_) => None,
                }
            },
            _ => None,
        }
    }

    /// The answer to a request that plans an operation; none for a request
    /// that cancels.
    pub fn planned(&self) -> (r: Option<String>)
        ensures
            match r {
                Some(m) => operation_name(self.mode) matches Some(n) && m@ == n
                    + " is planned after "@ + decimal(self.timeout as nat) + " seconds"@,
                None => operation_name(self.mode) is None,
            },
    {
        match self.mode.name() {
            Some(name) => {
                let mut out = name;
                out.append(" is planned after ");
                push_decimal(&mut out, self.timeout);
                out.append(" seconds");
                Some(out)
            },
            None => None,
        }
    }
}

/// Decides which notice is due with `remaining` seconds left.
pub fn countdown_notice(remaining: u64, warned: bool) -> (r: Option<Notice>)
    ensures
        r == notice_due(remaining, warned),
{
    if remaining <= SOON_SECONDS {
        Some(Notice::Soon(remaining))
    } else if !warned && remaining <= HALF_MINUTE_SECONDS {
        Some(Notice::HalfMinute)
    } else {
        None
    }
}

/// The text of a notice about an operation.
pub open spec fn notice_text(mode: PowerMode, notice: Notice) -> Option<Seq<char>> {
    match notice {
        Notice::Soon(seconds) => match operation_name(mode) {
            Some(n) => Some(n + " after "@ + decimal(seconds as nat) + " seconds.."@),
            None => None,
        },
        Notice::HalfMinute => match operation_name_lower(mode) {
            Some(n) => Some("Before "@ + n + " less than 30 seconds left!"@),
            None => None,
        },
    }
}

/// Writes the text of a notice about an operation; none for cancelling.
pub fn write_notice(mode: PowerMode, notice: Notice) -> (r: Option<String>)
    ensures
        match r {
            Some(t) => notice_text(mode, notice) == Some(t@),
            None => notice_text(mode, notice) is None,
        },
{
    match notice {
        Notice::Soon(seconds) => match mode.name() {
            Some(name) => {
                let mut out = name;
                out.append(" after ");
                push_decimal(&mut out, seconds);
                out.append(" seconds..");
                Some(out)
            },
            None => None,
        },
        Notice::HalfMinute => match mode.name_lower() {
            Some(name) => {
                let mut out = String::from_str("Before ");
                out.append(name.as_str());
                out.append(" less than 30 seconds left!");
                Some(out)
            },
            None => None,
        },
    }
}

} // verus!
