//! An infrared remote control: what a button does, and which codes count.

use crate::json::{fields_view, find_field, items_view, lookup, JsonModel, JsonValue};
use crate::manifest::{get_texts, texts_of};
use crate::text::{chars_of, matches_at, same_text, starts_with, views};
use vstd::prelude::*;
use vstd::string::{StrSliceExecFns, StringExecFns};

verus! {

/// What a button of the remote control stands for.
#[derive(Debug, Clone, Copy, PartialEq, Eq, Structural)]
pub enum Action {
    PlayPause,
    Stop,
    VolumeUp,
    VolumeDown,
    Mute,
    NextTrack,
    PrevTrack,
    ScrollLeft,
    ScrollRight,
    TabNext,
    TabPrev,
    WinTabNext,
    WinTabPrev,
    WinNextSpace,
    WinPrevSpace,
    PowerOff,
    Sleep,
}

/// A key of the keyboard.
#[derive(Debug, Clone, Copy, PartialEq, Eq, Structural)]
pub enum Key {
    PlayPause,
    Stop,
    VolumeUp,
    VolumeDown,
    Mute,
    Next,
    Prev,
    Left,
    Right,
    Ctrl,
    Shift,
    Alt,
    Super,
    Tab,
}

/// What is done for a button.
#[derive(Debug, PartialEq, Eq)]
pub enum Reaction {
    /// Nothing.
    Nothing,
    /// The keys are pressed together and let go, so many times.
    Press(Vec<Key>, usize),
    /// The machine is put to rest with its state kept.
    PowerOff,
    /// The machine is put to sleep.
    Sleep,
}

/// The model of a [`Reaction`].
pub enum ReactionModel {
    Nothing,
    Press(Seq<Key>, nat),
    PowerOff,
    Sleep,
}

impl View for Reaction {
    type V = ReactionModel;

    open spec fn view(&self) -> ReactionModel {
        match self {
            Reaction::Nothing => ReactionModel::Nothing,
            Reaction::Press(keys, times) => ReactionModel::Press(keys@, *times as nat),
            Reaction::PowerOff => ReactionModel::PowerOff,
            Reaction::Sleep => ReactionModel::Sleep,
        }
    }
}

/// The milliseconds below which a repeated code is taken for noise.
pub const REPEAT_NOISE_MS: i64 = 20;

/// The keys that an action presses; none for the actions on the power.
pub open spec fn keys_of(action: Action) -> Seq<Key> {
    match action {
        Action::PlayPause => seq![Key::PlayPause],
        Action::Stop => seq![Key::Stop],
        Action::VolumeUp => seq![Key::VolumeUp],
        Action::VolumeDown => seq![Key::VolumeDown],
        Action::Mute => seq![Key::Mute],
        Action::NextTrack => seq![Key::Next],
        Action::PrevTrack => seq![Key::Prev],
        Action::ScrollLeft => seq![Key::Left],
        Action::ScrollRight => seq![Key::Right],
        Action::TabNext => seq![Key::Ctrl, Key::Tab],
        Action::TabPrev => seq![Key::Ctrl, Key::Shift, Key::Tab],
        Action::WinTabNext => seq![Key::Alt, Key::Tab],
        Action::WinTabPrev => seq![Key::Alt, Key::Shift, Key::Tab],
        Action::WinNextSpace => seq![Key::Ctrl, Key::Super, Key::Right],
        Action::WinPrevSpace => seq![Key::Ctrl, Key::Super, Key::Left],
        Action::PowerOff => Seq::empty(),
        Action::Sleep => Seq::empty(),
    }
}

/// Whether an action goes on while its button is held down.
pub open spec fn repeats(action: Action) -> bool {
    action == Action::VolumeUp || action == Action::VolumeDown || action == Action::WinNextSpace
        || action == Action::WinPrevSpace
}

/// What is done for a button: a repeated code that comes too soon is noise;
/// an action that goes on while the button is held is done twice for a
/// repeated code; any other action is done once, and not for a repeated code.
pub open spec fn reaction_of(action: Action, repeat: bool, millis_diff: i64) -> ReactionModel {
    if repeat && millis_diff < REPEAT_NOISE_MS {
        ReactionModel::Nothing
    } else if repeats(action) {
        ReactionModel::Press(
            keys_of(action),
            if repeat {
                2
            } else {
                1
            },
        )
    } else if repeat {
        ReactionModel::Nothing
    } else if action == Action::PowerOff {
        ReactionModel::PowerOff
    } else if action == Action::Sleep {
        ReactionModel::Sleep
    } else {
        ReactionModel::Press(keys_of(action), 1)
    }
}

/// The keys that an action presses.
pub fn action_keys(action: Action) -> (keys: Vec<Key>)
    ensures
        keys@ == keys_of(action),
{
    let mut keys: Vec<Key> = Vec::new();
    match action {
        Action::PlayPause => {
            keys.push(Key::PlayPause);
        },
        Action::Stop => {
            keys.push(Key::Stop);
        },
        Action::VolumeUp => {
            keys.push(Key::VolumeUp);
        },
        Action::VolumeDown => {
            keys.push(Key::VolumeDown);
        },
        Action::Mute => {
            keys.push(Key::Mute);
        },
        Action::NextTrack => {
            keys.push(Key::Next);
        },
        Action::PrevTrack => {
            keys.push(Key::Prev);
        },
        Action::ScrollLeft => {
            keys.push(Key::Left);
        },
        Action::ScrollRight => {
            keys.push(Key::Right);
        },
        Action::TabNext => {
            keys.push(Key::Ctrl);
            keys.push(Key::Tab);
        },
        Action::TabPrev => {
            keys.push(Key::Ctrl);
            keys.push(Key::Shift);
            keys.push(Key::Tab);
        },
        Action::WinTabNext => {
            keys.push(Key::Alt);
            keys.push(Key::Tab);
        },
        Action::WinTabPrev => {
            keys.push(Key::Alt);
            keys.push(Key::Shift);
            keys.push(Key::Tab);
        },
        Action::WinNextSpace => {
            keys.push(Key::Ctrl);
            keys.push(Key::Super);
            keys.push(Key::Right);
        },
        Action::WinPrevSpace => {
            keys.push(Key::Ctrl);
            keys.push(Key::Super);
            keys.push(Key::Left);
        },
        Action::PowerOff => {},
        Action::Sleep => {},
    }
    assert(keys@ =~= keys_of(action));
    keys
}

/// The codes of a button, and what the button stands for.
#[derive(Debug)]
pub struct Bind {
    pub codes: Vec<String>,
    pub action: Action,
}

/// The action that a name stands for.
pub open spec fn action_of(name: Seq<char>) -> Option<Action> {
    if name == "PlayPause"@ {
        Some(Action::PlayPause)
    } else if name == "Stop"@ {
        Some(Action::Stop)
    } else if name == "VolumeUp"@ {
        Some(Action::VolumeUp)
    } else if name == "VolumeDown"@ {
        Some(Action::VolumeDown)
    } else if name == "Mute"@ {
        Some(Action::Mute)
    } else if name == "NextTrack"@ {
        Some(Action::NextTrack)
    } else if name == "PrevTrack"@ {
        Some(Action::PrevTrack)
    } else if name == "ScrollLeft"@ {
        Some(Action::ScrollLeft)
    } else if name == "ScrollRight"@ {
        Some(Action::ScrollRight)
    } else if name == "TabNext"@ {
        Some(Action::TabNext)
    } else if name == "TabPrev"@ {
        Some(Action::TabPrev)
    } else if name == "WinTabNext"@ {
        Some(Action::WinTabNext)
    } else if name == "WinTabPrev"@ {
        Some(Action::WinTabPrev)
    } else if name == "WinNextSpace"@ {
        Some(Action::WinNextSpace)
    } else if name == "WinPrevSpace"@ {
        Some(Action::WinPrevSpace)
    } else if name == "PowerOff"@ {
        Some(Action::PowerOff)
    } else if name == "Sleep"@ {
        Some(Action::Sleep)
    } else {
        None
    }
}

impl Action {
    /// Reads the name of an action.
    pub fn parse(name: &str) -> (r: Option<Action>)
        ensures
            r == action_of(name@),
    {
        if same_text(name, "PlayPause") {
            Some(Action::PlayPause)
        } else if same_text(name, "Stop") {
            Some(Action::Stop)
        } else if same_text(name, "VolumeUp") {
            Some(Action::VolumeUp)
        } else if same_text(name, "VolumeDown") {
            Some(Action::VolumeDown)
        } else if same_text(name, "Mute") {
            Some(Action::Mute)
        } else if same_text(name, "NextTrack") {
            Some(Action::NextTrack)
        } else if same_text(name, "PrevTrack") {
            Some(Action::PrevTrack)
        } else if same_text(name, "ScrollLeft") {
            Some(Action::ScrollLeft)
        } else if same_text(name, "ScrollRight") {
            Some(Action::ScrollRight)
        } else if same_text(name, "TabNext") {
            Some(Action::TabNext)
        } else if same_text(name, "TabPrev") {
            Some(Action::TabPrev)
        } else if same_text(name, "WinTabNext") {
            Some(Action::WinTabNext)
        } else if same_text(name, "WinTabPrev") {
            Some(Action::WinTabPrev)
        } else if same_text(name, "WinNextSpace") {
            Some(Action::WinNextSpace)
        } else if same_text(name, "WinPrevSpace") {
            Some(Action::WinPrevSpace)
        } else if same_text(name, "PowerOff") {
            Some(Action::PowerOff)
        } else if same_text(name, "Sleep") {
            Some(Action::Sleep)
        } else {
            None
        }
    }
}

/// The button that a document describes: `codes` has to be a list of
/// strings, `action` the name of an action.
pub open spec fn bind_of(doc: JsonModel) -> Option<(Seq<Seq<char>>, Action)> {
    match doc {
        JsonModel::Object(f) => match (lookup(f, "codes"@), lookup(f, "action"@)) {
            (Some(JsonModel::Array(items)), Some(JsonModel::Str(name))) => match (
                texts_of(items),
                action_of(name),
            ) {
                (Some(codes), Some(action)) => Some((codes, action)),
                _ => None,
            },
            _ => None,
        },
        _ => None,
    }
}

/// Whether one of the codes is `code`.
pub open spec fn has_code(codes: Seq<String>, code: Seq<char>) -> bool {
    exists|i: int| 0 <= i < codes.len() && (#[trigger] codes[i])@ == code
}

impl Bind {
    /// Reads the description of a button.
    pub fn decode(doc: &JsonValue) -> (r: Option<Bind>)
        ensures
            match r {
                Some(b) => bind_of(doc@) == Some((views(b.codes@), b.action)),
                None => bind_of(doc@) is None,
            },
    {
        match doc {
            JsonValue::Object(f) => {
                assert(doc@ == JsonModel::Object(fields_view(f@)));
                let items = match find_field(f, "codes") {
                    Some(JsonValue::Array(items)) => {
                        assert(lookup(fields_view(f@), "codes"@) == Some(
                            JsonModel::Array(items_view(items@)),
                        ));
                        items
                    },
                    _ => { return None; },
                };
                let name = match find_field(f, "action") {
                    Some(JsonValue::Str(name)) => name,
                    _ => { return None; },
                };
                let codes = match get_texts(items) {
                    Some(c) => c,
                    None => { return None; },
                };
                match Action::parse(name.as_str()) {
                    Some(action) => Some(Bind { codes, action }),
                    None => None,
                }
            },
            _ => None,
        }
    }

    /// Whether the button has this code.
    pub fn matches(&self, code: &str) -> (b: bool)
        ensures
            b == has_code(self.codes@, code@),
    {
        let mut i: usize = 0;
        while i < self.codes.len()
            invariant
                i <= self.codes.len(),
                forall|k: int| 0 <= k < i ==> (#[trigger] self.codes@[k])@ != code@,
            decreases self.codes.len() - i,
        {
            if same_text(self.codes[i].as_str(), code) {
                return true;
            }
            i += 1;
        }
        false
    }

    /// Decides what is done for the button. `repeat` says that the code
    /// came as a repetition, `millis_diff` gives the milliseconds since the
    /// code before it.
    pub fn handle(&self, repeat: bool, millis_diff: i64) -> (r: Reaction)
        ensures
            r@ == reaction_of(self.action, repeat, millis_diff),
    {
        let action = self.action;
        if repeat && millis_diff < REPEAT_NOISE_MS {
            return Reaction::Nothing;
        }
        let goes_on = action == Action::VolumeUp || action == Action::VolumeDown || action
            == Action::WinNextSpace || action == Action::WinPrevSpace;
        if goes_on {
            Reaction::Press(
                action_keys(action),
                if repeat {
                    2
                } else {
                    1
                },
            )
        } else if repeat {
            Reaction::Nothing
        } else if action == Action::PowerOff {
            Reaction::PowerOff
        } else if action == Action::Sleep {
            Reaction::Sleep
        } else {
            Reaction::Press(action_keys(action), 1)
        }
    }
}

/// The milliseconds after a code from which a repetition counts.
pub const REPEAT_MIN_MS: u64 = 200;

/// The milliseconds after a code up to which a repetition counts.
pub const REPEAT_MAX_MS: u64 = 800;

/// Whether a text has the shape of a button's code: `0x` and digits after
/// it, eight characters at least.
pub open spec fn is_code(code: Seq<char>) -> bool {
    starts_with(code, "0x"@) && code.len() >= 8
}

/// The code that says that the last button is still held down.
pub open spec fn repeat_code() -> Seq<char> {
    "0xFFFFFFFF"@
}

/// What a code that came in stands for.
#[derive(Debug, PartialEq, Eq)]
pub enum Received {
    /// The code is passed over.
    Ignored,
    /// A button was pressed: its code.
    Pressed(String),
    /// The last button is held down: its code.
    Held(String),
}

/// The model of a [`Received`].
pub enum ReceivedModel {
    Ignored,
    Pressed(Seq<char>),
    Held(Seq<char>),
}

impl View for Received {
    type V = ReceivedModel;

    open spec fn view(&self) -> ReceivedModel {
        match self {
            Received::Ignored => ReceivedModel::Ignored,
            Received::Pressed(c) => ReceivedModel::Pressed(c@),
            Received::Held(c) => ReceivedModel::Held(c@),
        }
    }
}

/// What a code that came in stands for, by the last button's code (empty
/// where there was none) and the milliseconds since the last code: a text
/// that is no code is passed over; the repeat code stands for the last
/// button where it comes in time; any other code is a button of its own.
pub open spec fn received(last: Seq<char>, code: Seq<char>, since: u64) -> ReceivedModel {
    if !is_code(code) {
        ReceivedModel::Ignored
    } else if code == repeat_code() {
        if last.len() == 0 || since < REPEAT_MIN_MS || since > REPEAT_MAX_MS {
            ReceivedModel::Ignored
        } else {
            ReceivedModel::Held(last)
        }
    } else {
        ReceivedModel::Pressed(code)
    }
}

/// The listener on the remote control's line.
#[derive(Debug, Clone, Copy, PartialEq, Eq, Structural)]
pub struct IRController;

impl IRController {
    /// Takes a code that came in. `last` holds the last button's code and
    /// is set to the new one when a button was pressed.
    pub fn listen(last: &mut String, code: &str, since: u64) -> (r: Received)
        ensures
            r@ == received(old(last)@, code@, since),
            final(last)@ == match received(old(last)@, code@, since) {
                ReceivedModel::Pressed(c) => c,
                _ => old(last)@,
            },
    {
        let cs = chars_of(code);
        let mark = chars_of("0x");
        proof {
            assert(cs@.skip(0) == cs@);
        }
        if !matches_at(cs.as_slice(), 0, mark.as_slice()) || cs.len() < 8 {
            return Received::Ignored;
        }
        if same_text(code, "0xFFFFFFFF") {
            if last.as_str().unicode_len() == 0 || since < REPEAT_MIN_MS || since > REPEAT_MAX_MS {
                Received::Ignored
            } else {
                Received::Held(last.clone())
            }
        } else {
            *last = String::from_str(code);
            Received::Pressed(String::from_str(code))
        }
    }

    /// Decides what is done for a code: the reaction of every button that
    /// has the code, in the order of the buttons.
    pub fn handle_code(binds: &Vec<Bind>, code: &str, repeat: bool, millis_diff: i64) -> (r: Vec<
        Reaction,
    >)
        ensures
            reaction_views(r@) == reactions(binds@, code@, repeat, millis_diff, binds.len() as int),
    {
        let mut out: Vec<Reaction> = Vec::new();
        let mut i: usize = 0;
        assert(reaction_views(out@) =~= reactions(binds@, code@, repeat, millis_diff, 0));
        while i < binds.len()
            invariant
                i <= binds.len(),
                reaction_views(out@) == reactions(binds@, code@, repeat, millis_diff, i as int),
            decreases binds.len() - i,
        {
            let ghost before = reaction_views(out@);
            if binds[i].matches(code) {
                out.push(binds[i].handle(repeat, millis_diff));
                assert(reaction_views(out@) =~= before.push(
                    reaction_of(binds@[i as int].action, repeat, millis_diff),
                ));
            }
            i += 1;
        }
        out
    }
}

/// The models of a sequence of reactions.
pub open spec fn reaction_views(r: Seq<Reaction>) -> Seq<ReactionModel> {
    Seq::new(r.len(), |i: int| r[i]@)
}

/// The reactions of those of the first `n` buttons that have the code.
pub open spec fn reactions(
    binds: Seq<Bind>,
    code: Seq<char>,
    repeat: bool,
    millis_diff: i64,
    n: int,
) -> Seq<ReactionModel>
    decreases n,
{
    if n <= 0 {
        Seq::empty()
    } else if has_code(binds[n - 1].codes@, code) {
        reactions(binds, code, repeat, millis_diff, n - 1).push(
            reaction_of(binds[n - 1].action, repeat, millis_diff),
        )
    } else {
        reactions(binds, code, repeat, millis_diff, n - 1)
    }
}

/// The line of the remote control's receiver: its port and its speed.
#[derive(Debug, Clone, Copy, PartialEq, Eq, Structural)]
pub struct ArduinoSettings {
    pub port: u16,
    pub rate: u32,
}

impl Default for ArduinoSettings {
    fn default() -> (r: Self)
        ensures
            r == (ArduinoSettings { port: 3, rate: 115200 }),
    {
        ArduinoSettings { port: 3, rate: 115200 }
    }
}

} // verus!
