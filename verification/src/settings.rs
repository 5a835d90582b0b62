//! The daemon's settings: their types, their defaults, and reading them from
//! the text of the settings file.

use crate::json::{
    fields_view, find_field, found, items_view, lookup, parse_toml, toml_document, JsonModel,
    JsonValue,
};
use crate::manifest::{as_bool, as_port, as_text, get_bool, get_port, get_text, get_texts, texts_of};
use crate::text::{
    all_digits, chars_of, clone_strings, digits_value, parse_digits, same_text, views,
};
use vstd::prelude::*;
use vstd::string::StringExecFns;

verus! {

/// The `[server]` table: the port on which the daemon listens.
#[derive(Debug, Clone, Copy, PartialEq, Eq, Structural)]
pub struct ServerSettings {
    pub port: u16,
}

impl Default for ServerSettings {
    fn default() -> (r: Self)
        ensures
            r.port == 7878,
    {
        ServerSettings { port: 7878 }
    }
}

/// The `[tools]` table: the tool directories, the milliseconds between two
/// checks and between two looks at the tools' logs, whether the checks go
/// on after the first, and the limit of a query's steps (0 for none).
#[derive(Debug)]
pub struct ToolsSettings {
    pub dirs: Vec<String>,
    pub check_timeout: u64,
    pub trace_timeout: u64,
    pub autocheck: bool,
    pub recurs_limit: u64,
}

/// The model of a [`ToolsSettings`].
pub struct ToolsSettingsModel {
    pub dirs: Seq<Seq<char>>,
    pub check_timeout: u64,
    pub trace_timeout: u64,
    pub autocheck: bool,
    pub recurs_limit: u64,
}

impl View for ToolsSettings {
    type V = ToolsSettingsModel;

    open spec fn view(&self) -> ToolsSettingsModel {
        ToolsSettingsModel {
            dirs: views(self.dirs@),
            check_timeout: self.check_timeout,
            trace_timeout: self.trace_timeout,
            autocheck: self.autocheck,
            recurs_limit: self.recurs_limit,
        }
    }
}

impl Clone for ToolsSettings {
    fn clone(&self) -> (r: Self)
        ensures
            r@ == self@,
    {
        ToolsSettings {
            dirs: clone_strings(&self.dirs),
            check_timeout: self.check_timeout,
            trace_timeout: self.trace_timeout,
            autocheck: self.autocheck,
            recurs_limit: self.recurs_limit,
        }
    }
}

/// The tools settings of a daemon without a settings file.
pub open spec fn default_tools() -> ToolsSettingsModel {
    ToolsSettingsModel {
        dirs: seq!["tools"@],
        check_timeout: 2500,
        trace_timeout: 500,
        autocheck: true,
        recurs_limit: 0,
    }
}

impl Default for ToolsSettings {
    fn default() -> (r: Self)
        ensures
            r@ == default_tools(),
    {
        let mut dirs: Vec<String> = Vec::new();
        dirs.push(String::from_str("tools"));
        let r = ToolsSettings {
            dirs,
            check_timeout: 2500,
            trace_timeout: 500,
            autocheck: true,
            recurs_limit: 0,
        };
        assert(r@.dirs =~= default_tools().dirs);
        r
    }
}

/// The `[lmstudio]` table: the port of the model server and the path of its
/// executable.
#[derive(Debug)]
pub struct LMStudioSettings {
    pub port: u16,
    pub executable: String,
}

/// The model of an [`LMStudioSettings`].
pub struct LMStudioModel {
    pub port: u16,
    pub executable: Seq<char>,
}

impl View for LMStudioSettings {
    type V = LMStudioModel;

    open spec fn view(&self) -> LMStudioModel {
        LMStudioModel { port: self.port, executable: self.executable@ }
    }
}

impl Clone for LMStudioSettings {
    fn clone(&self) -> (r: Self)
        ensures
            r@ == self@,
    {
        LMStudioSettings { port: self.port, executable: self.executable.clone() }
    }
}

impl Default for LMStudioSettings {
    fn default() -> (r: Self)
        ensures
            r@ == (LMStudioModel { port: 9090, executable: "/opt/lmstudio/LMStudio.AppImage"@ }),
    {
        LMStudioSettings {
            port: 9090,
            executable: String::from_str("/opt/lmstudio/LMStudio.AppImage"),
        }
    }
}

/// The kind of a model's interface.
#[derive(Debug, Clone, Copy, PartialEq, Eq, Structural)]
pub enum LMKind {
    LMStudio,
}

/// The model of the settings of one language model: the kind of its
/// interface, the token to reach it with, its name, and the size of its
/// context in tokens.
pub struct LmSettingsModel {
    pub kind: LMKind,
    pub token: Seq<char>,
    pub model: Seq<char>,
    pub context: u32,
}

/// The `[slm]` table: the small language model.
#[derive(Debug)]
pub struct SLMSettings {
    pub kind: LMKind,
    pub token: String,
    pub model: String,
    pub context: u32,
}

impl View for SLMSettings {
    type V = LmSettingsModel;

    open spec fn view(&self) -> LmSettingsModel {
        LmSettingsModel {
            kind: self.kind,
            token: self.token@,
            model: self.model@,
            context: self.context,
        }
    }
}

impl Clone for SLMSettings {
    fn clone(&self) -> (r: Self)
        ensures
            r@ == self@,
    {
        SLMSettings {
            kind: self.kind,
            token: self.token.clone(),
            model: self.model.clone(),
            context: self.context,
        }
    }
}

impl Default for SLMSettings {
    fn default() -> (r: Self)
        ensures
            r@ == (LmSettingsModel {
                kind: LMKind::LMStudio,
                token: ""@,
                model: "qwen2.5-coder-3b-instruct"@,
                context: 4096,
            }),
    {
        SLMSettings {
            kind: LMKind::LMStudio,
            token: String::from_str(""),
            model: String::from_str("qwen2.5-coder-3b-instruct"),
            context: 4096,
        }
    }
}

/// The `[llm]` table: the large language model.
#[derive(Debug)]
pub struct LLMSettings {
    pub kind: LMKind,
    pub token: String,
    pub model: String,
    pub context: u32,
}

impl View for LLMSettings {
    type V = LmSettingsModel;

    open spec fn view(&self) -> LmSettingsModel {
        LmSettingsModel {
            kind: self.kind,
            token: self.token@,
            model: self.model@,
            context: self.context,
        }
    }
}

impl Clone for LLMSettings {
    fn clone(&self) -> (r: Self)
        ensures
            r@ == self@,
    {
        LLMSettings {
            kind: self.kind,
            token: self.token.clone(),
            model: self.model.clone(),
            context: self.context,
        }
    }
}

impl Default for LLMSettings {
    fn default() -> (r: Self)
        ensures
            r@ == (LmSettingsModel {
                kind: LMKind::LMStudio,
                token: ""@,
                model: "qwen/qwen3-vl-8b"@,
                context: 8192,
            }),
    {
        LLMSettings {
            kind: LMKind::LMStudio,
            token: String::from_str(""),
            model: String::from_str("qwen/qwen3-vl-8b"),
            context: 8192,
        }
    }
}

/// The daemon's settings.
#[derive(Debug)]
pub struct Settings {
    pub server: ServerSettings,
    pub tools: ToolsSettings,
    pub lmstudio: LMStudioSettings,
    pub slm: SLMSettings,
    pub llm: LLMSettings,
}

/// The model of a [`Settings`].
pub struct SettingsModel {
    pub server: ServerSettings,
    pub tools: ToolsSettingsModel,
    pub lmstudio: LMStudioModel,
    pub slm: LmSettingsModel,
    pub llm: LmSettingsModel,
}

impl View for Settings {
    type V = SettingsModel;

    open spec fn view(&self) -> SettingsModel {
        SettingsModel {
            server: self.server,
            tools: self.tools@,
            lmstudio: self.lmstudio@,
            slm: self.slm@,
            llm: self.llm@,
        }
    }
}

impl Clone for Settings {
    fn clone(&self) -> (r: Self)
        ensures
            r@ == self@,
    {
        Settings {
            server: self.server,
            tools: self.tools.clone(),
            lmstudio: self.lmstudio.clone(),
            slm: self.slm.clone(),
            llm: self.llm.clone(),
        }
    }
}

/// The settings of a daemon without a settings file.
pub open spec fn default_settings() -> SettingsModel {
    SettingsModel {
        server: ServerSettings { port: 7878 },
        tools: default_tools(),
        lmstudio: LMStudioModel { port: 9090, executable: "/opt/lmstudio/LMStudio.AppImage"@ },
        slm: LmSettingsModel {
            kind: LMKind::LMStudio,
            token: ""@,
            model: "qwen2.5-coder-3b-instruct"@,
            context: 4096,
        },
        llm: LmSettingsModel {
            kind: LMKind::LMStudio,
            token: ""@,
            model: "qwen/qwen3-vl-8b"@,
            context: 8192,
        },
    }
}

impl Default for Settings {
    fn default() -> (r: Self)
        ensures
            r@ == default_settings(),
    {
        Settings {
            server: ServerSettings::default(),
            tools: ToolsSettings::default(),
            lmstudio: LMStudioSettings::default(),
            slm: SLMSettings::default(),
            llm: LLMSettings::default(),
        }
    }
}

/// A value that has to be a number written in digits, at most `max`.
pub open spec fn as_number(v: Option<JsonModel>, max: u64) -> Option<u64> {
    match v {
        Some(JsonModel::Number(n)) => if all_digits(n) && digits_value(n) <= max {
            Some(digits_value(n) as u64)
        } else {
            None
        },
        _ => None,
    }
}

/// A value that has to name a kind of model interface.
pub open spec fn as_kind(v: Option<JsonModel>) -> Option<LMKind> {
    match v {
        Some(JsonModel::Str(s)) => if s == "lm-studio"@ {
            Some(LMKind::LMStudio)
        } else {
            None
        },
        _ => None,
    }
}

/// The `[server]` table of the settings.
pub open spec fn server_settings_of(v: Option<JsonModel>) -> Option<ServerSettings> {
    match v {
        Some(JsonModel::Object(f)) => match as_port(lookup(f, "port"@)) {
            Some(port) => Some(ServerSettings { port }),
            None => None,
        },
        _ => None,
    }
}

/// The list of tool directories.
pub open spec fn dirs_of(v: Option<JsonModel>) -> Option<Seq<Seq<char>>> {
    match v {
        Some(JsonModel::Array(items)) => texts_of(items),
        _ => None,
    }
}

/// The `[tools]` table of the settings.
pub open spec fn tools_settings_of(v: Option<JsonModel>) -> Option<ToolsSettingsModel> {
    match v {
        Some(JsonModel::Object(f)) => match (
            dirs_of(lookup(f, "dirs"@)),
            as_number(lookup(f, "check_timeout"@), u64::MAX),
            as_number(lookup(f, "trace_timeout"@), u64::MAX),
            as_bool(lookup(f, "autocheck"@)),
            as_number(lookup(f, "recurs_limit"@), u64::MAX),
        ) {
            (
                Some(dirs),
                Some(check_timeout),
                Some(trace_timeout),
                Some(autocheck),
                Some(recurs_limit),
            ) => Some(
                ToolsSettingsModel { dirs, check_timeout, trace_timeout, autocheck, recurs_limit },
            ),
            _ => None,
        },
        _ => None,
    }
}

/// The `[lmstudio]` table of the settings.
pub open spec fn lmstudio_of(v: Option<JsonModel>) -> Option<LMStudioModel> {
    match v {
        Some(JsonModel::Object(f)) => match (
            as_port(lookup(f, "port"@)),
            as_text(lookup(f, "exec"@)),
        ) {
            (Some(port), Some(executable)) => Some(LMStudioModel { port, executable }),
            _ => None,
        },
        _ => None,
    }
}

/// The table of one language model.
pub open spec fn lm_settings_of(v: Option<JsonModel>) -> Option<LmSettingsModel> {
    match v {
        Some(JsonModel::Object(f)) => match (
            as_kind(lookup(f, "kind"@)),
            as_text(lookup(f, "token"@)),
            as_text(lookup(f, "model"@)),
            as_number(lookup(f, "context"@), 0xffff_ffff),
        ) {
            (Some(kind), Some(token), Some(model), Some(context)) => Some(
                LmSettingsModel { kind, token, model, context: context as u32 },
            ),
            _ => None,
        },
        _ => None,
    }
}

/// The settings that a document holds, if it fits the schema: all five
/// tables with all their keys.
pub open spec fn settings_of(doc: JsonModel) -> Option<SettingsModel> {
    match doc {
        JsonModel::Object(f) => match (
            server_settings_of(lookup(f, "server"@)),
            tools_settings_of(lookup(f, "tools"@)),
            lmstudio_of(lookup(f, "lmstudio"@)),
            lm_settings_of(lookup(f, "slm"@)),
            lm_settings_of(lookup(f, "llm"@)),
        ) {
            (Some(server), Some(tools), Some(lmstudio), Some(slm), Some(llm)) => Some(
                SettingsModel { server, tools, lmstudio, slm, llm },
            ),
            _ => None,
        },
        _ => None,
    }
}

/// The settings that a TOML text holds, if it is well formed and fits the
/// schema.
pub open spec fn settings_text(text: Seq<char>) -> Option<SettingsModel> {
    match toml_document(text) {
        Ok(doc) => settings_of(doc),
        Err(_) => None,
    }
}

/// The settings that a daemon starts with, by the text of its settings file:
/// the defaults where there is no file.
pub open spec fn initial_settings(text: Option<Seq<char>>) -> Option<SettingsModel> {
    match text {
        Some(t) => settings_text(t),
        None => Some(default_settings()),
    }
}

/// Reads a value that has to be a number.
fn get_number(v: Option<&JsonValue>, max: u64) -> (r: Option<u64>)
    ensures
        r == as_number(found(v), max),
{
    match v {
        Some(JsonValue::Number(n)) => {
            let cs = chars_of(n.as_str());
            parse_digits(cs.as_slice(), max)
        },
        _ => None,
    }
}

/// Reads a value that has to name a kind of model interface.
fn get_kind(v: Option<&JsonValue>) -> (r: Option<LMKind>)
    ensures
        r == as_kind(found(v)),
{
    match v {
        Some(JsonValue::Str(s)) => if same_text(s.as_str(), "lm-studio") {
            Some(LMKind::LMStudio)
        } else {
            None
        },
        _ => None,
    }
}

impl ServerSettings {
    /// Reads the `[server]` table.
    pub fn decode(v: Option<&JsonValue>) -> (r: Option<ServerSettings>)
        ensures
            r == server_settings_of(found(v)),
    {
        match v {
            Some(JsonValue::Object(f)) => {
                assert(v->0@ == JsonModel::Object(fields_view(f@)));
                match get_port(find_field(f, "port")) {
                    Some(port) => Some(ServerSettings { port }),
                    None => None,
                }
            },
            _ => None,
        }
    }
}

impl ToolsSettings {
    /// Reads the `[tools]` table.
    pub fn decode(v: Option<&JsonValue>) -> (r: Option<ToolsSettings>)
        ensures
            match r {
                Some(t) => tools_settings_of(found(v)) == Some(t@),
                None => tools_settings_of(found(v)) is None,
            },
    {
        match v {
            Some(JsonValue::Object(f)) => {
                assert(v->0@ == JsonModel::Object(fields_view(f@)));
                let dirs = match find_field(f, "dirs") {
                    Some(JsonValue::Array(items)) => {
                        assert(lookup(fields_view(f@), "dirs"@) == Some(
                            JsonModel::Array(items_view(items@)),
                        ));
                        match get_texts(items) {
                            Some(d) => d,
                            None => { return None; },
                        }
                    },
                    _ => { return None; },
                };
                let check_timeout = match get_number(find_field(f, "check_timeout"), u64::MAX) {
                    Some(n) => n,
                    None => { return None; },
                };
                let trace_timeout = match get_number(find_field(f, "trace_timeout"), u64::MAX) {
                    Some(n) => n,
                    None => { return None; },
                };
                let autocheck = match get_bool(find_field(f, "autocheck")) {
                    Some(b) => b,
                    None => { return None; },
                };
                let recurs_limit = match get_number(find_field(f, "recurs_limit"), u64::MAX) {
                    Some(n) => n,
                    None => { return None; },
                };
                Some(ToolsSettings { dirs, check_timeout, trace_timeout, autocheck, recurs_limit })
            },
            _ => None,
        }
    }
}

impl LMStudioSettings {
    /// Reads the `[lmstudio]` table.
    pub fn decode(v: Option<&JsonValue>) -> (r: Option<LMStudioSettings>)
        ensures
            match r {
                Some(t) => lmstudio_of(found(v)) == Some(t@),
                None => lmstudio_of(found(v)) is None,
            },
    {
        match v {
            Some(JsonValue::Object(f)) => {
                assert(v->0@ == JsonModel::Object(fields_view(f@)));
                let port = match get_port(find_field(f, "port")) {
                    Some(p) => p,
                    None => { return None; },
                };
                let executable = match get_text(find_field(f, "exec")) {
                    Some(t) => t,
                    None => { return None; },
                };
                Some(LMStudioSettings { port, executable })
            },
            _ => None,
        }
    }
}

impl SLMSettings {
    /// Reads the `[slm]` table.
    pub fn decode(v: Option<&JsonValue>) -> (r: Option<SLMSettings>)
        ensures
            match r {
                Some(t) => lm_settings_of(found(v)) == Some(t@),
                None => lm_settings_of(found(v)) is None,
            },
    {
        match v {
            Some(JsonValue::Object(f)) => {
                assert(v->0@ == JsonModel::Object(fields_view(f@)));
                let kind = match get_kind(find_field(f, "kind")) {
                    Some(k) => k,
                    None => { return None; },
                };
                let token = match get_text(find_field(f, "token")) {
                    Some(t) => t,
                    None => { return None; },
                };
                let model = match get_text(find_field(f, "model")) {
                    Some(t) => t,
                    None => { return None; },
                };
                let context = match get_number(find_field(f, "context"), 0xffff_ffff) {
                    Some(n) => n as u32,
                    None => { return None; },
                };
                Some(SLMSettings { kind, token, model, context })
            },
            _ => None,
        }
    }
}

impl LLMSettings {
    /// Reads the `[llm]` table.
    pub fn decode(v: Option<&JsonValue>) -> (r: Option<LLMSettings>)
        ensures
            match r {
                Some(t) => lm_settings_of(found(v)) == Some(t@),
                None => lm_settings_of(found(v)) is None,
            },
    {
        match SLMSettings::decode(v) {
            Some(s) => Some(
                LLMSettings { kind: s.kind, token: s.token, model: s.model, context: s.context },
            ),
            None => None,
        }
    }
}

impl Settings {
    /// Reads the settings from a parsed document.
    pub fn decode(doc: &JsonValue) -> (r: Option<Settings>)
        ensures
            match r {
                Some(s) => settings_of(doc@) == Some(s@),
                None => settings_of(doc@) is None,
            },
    {
        match doc {
            JsonValue::Object(f) => {
                assert(doc@ == JsonModel::Object(fields_view(f@)));
                let server = match ServerSettings::decode(find_field(f, "server")) {
                    Some(s) => s,
                    None => { return None; },
                };
                let tools = match ToolsSettings::decode(find_field(f, "tools")) {
                    Some(s) => s,
                    None => { return None; },
                };
                let lmstudio = match LMStudioSettings::decode(find_field(f, "lmstudio")) {
                    Some(s) => s,
                    None => { return None; },
                };
                let slm = match SLMSettings::decode(find_field(f, "slm")) {
                    Some(s) => s,
                    None => { return None; },
                };
                let llm = match LLMSettings::decode(find_field(f, "llm")) {
                    Some(s) => s,
                    None => { return None; },
                };
                Some(Settings { server, tools, lmstudio, slm, llm })
            },
            _ => None,
        }
    }

    /// Reads the settings from the text of the settings file.
    pub fn read(text: &str) -> (r: Option<Settings>)
        ensures
            match r {
                Some(s) => settings_text(text@) == Some(s@),
                None => settings_text(text@) is None,
            },
    {
        match parse_toml(text) {
            Ok(doc) => Settings::decode(&doc),
            Err(_) => None,
        }
    }

    /// The settings that the daemon starts with: those of the settings file,
    /// given by its text, or the defaults where there is no file.
    pub fn init(text: Option<&str>) -> (r: Option<Settings>)
        ensures
            match r {
                Some(s) => initial_settings(
                    match text {
                        Some(t) => Some(t@),
                        None => None,
                    },
                ) == Some(s@),
                None => text matches Some(t) && settings_text(t@) is None,
            },
    {
        match text {
            Some(t) => Settings::read(t),
            None => Some(Settings::default()),
        }
    }

    /// A copy of the settings as they stand.
    pub fn get(&self) -> (r: Settings)
        ensures
            r@ == self@,
    {
        self.clone()
    }

    /// The settings themselves, to be changed in place.
    pub fn lock(&mut self) -> (r: &mut Settings)
        ensures
            *r == *old(self),
            *final(self) == *final(r),
    {
        self
    }

    /// Takes over the settings of the settings file, given by its text;
    /// where the text holds none, nothing changes. Says whether it did.
    pub fn update(&mut self, text: &str) -> (changed: bool)
        ensures
            changed == settings_text(text@) is Some,
            final(self)@ == match settings_text(text@) {
                Some(s) => s,
                None => old(self)@,
            },
    {
        match Settings::read(text) {
            Some(s) => {
                *self = s;
                true
            },
            None => false,
        }
    }

    /// Takes over the settings of the settings file and hands back a copy of
    /// them; none, and no change, where the text holds no settings.
    pub fn get_updated(&mut self, text: &str) -> (r: Option<Settings>)
        ensures
            match r {
                Some(s) => settings_text(text@) == Some(s@) && final(self)@ == s@,
                None => settings_text(text@) is None && final(self)@ == old(self)@,
            },
    {
        if self.update(text) {
            Some(self.clone())
        } else {
            None
        }
    }
}

} // verus!
