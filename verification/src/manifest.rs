//! A tool's manifest: its types, and reading one from a parsed document.

use crate::json::{
    clone_fields, fields_view, find_field, found, items_view, lookup, parse_toml, toml_document,
    JsonModel, JsonValue,
};
use crate::text::{
    all_digits, chars_of, clone_strings, digits_value, parse_digits, text_view, views,
};
use crate::error::{Error, ErrorModel};
use vstd::prelude::*;
use vstd::string::StringExecFns;

verus! {

/// The `[tool]` table: whether the tool is enabled, its name, and the path
/// of its executable, relative to the tool's directory.
#[derive(Debug)]
pub struct ManifestTool {
    pub enable: bool,
    pub name: String,
    pub executable: String,
}

/// The model of a [`ManifestTool`].
pub struct ManifestToolModel {
    pub enable: bool,
    pub name: Seq<char>,
    pub executable: Seq<char>,
}

impl View for ManifestTool {
    type V = ManifestToolModel;

    open spec fn view(&self) -> ManifestToolModel {
        ManifestToolModel { enable: self.enable, name: self.name@, executable: self.executable@ }
    }
}

/// The `[server]` table: the port that the tool's server listens on.
#[derive(Debug, Clone, Copy, PartialEq, Eq, Structural)]
pub struct ManifestServer {
    pub port: u16,
}

/// One argument of an action: its format, the values it may take where they
/// are listed, and whether it may be left out.
#[derive(Debug)]
pub struct ManifestToolArgument {
    pub format: String,
    pub variants: Option<Vec<String>>,
    pub optional: bool,
}

/// The model of a [`ManifestToolArgument`].
pub struct ArgumentModel {
    pub format: Seq<char>,
    pub variants: Option<Seq<Seq<char>>>,
    pub optional: bool,
}

impl View for ManifestToolArgument {
    type V = ArgumentModel;

    open spec fn view(&self) -> ArgumentModel {
        ArgumentModel {
            format: self.format@,
            variants: match self.variants {
                Some(v) => Some(views(v@)),
                None => None,
            },
            optional: self.optional,
        }
    }
}

/// One action of a tool: whether it is enabled, what it does, its arguments
/// by name, and examples of queries with the payloads that answer them.
#[derive(Debug)]
pub struct ManifestToolAction {
    pub enable: bool,
    pub description: String,
    pub arguments: Vec<(String, ManifestToolArgument)>,
    pub examples: Vec<(String, Vec<(String, JsonValue)>)>,
}

/// The model of a [`ManifestToolAction`].
pub struct ActionModel {
    pub enable: bool,
    pub description: Seq<char>,
    pub arguments: Seq<(Seq<char>, ArgumentModel)>,
    pub examples: Seq<(Seq<char>, Seq<(Seq<char>, JsonModel)>)>,
}

/// The models of named arguments, in order.
pub open spec fn arguments_view(s: Seq<(String, ManifestToolArgument)>) -> Seq<
    (Seq<char>, ArgumentModel),
> {
    Seq::new(s.len(), |i: int| (s[i].0@, s[i].1@))
}

/// The models of examples, in order.
pub open spec fn examples_view(s: Seq<(String, Vec<(String, JsonValue)>)>) -> Seq<
    (Seq<char>, Seq<(Seq<char>, JsonModel)>),
> {
    Seq::new(s.len(), |i: int| (s[i].0@, fields_view(s[i].1@)))
}

impl View for ManifestToolAction {
    type V = ActionModel;

    open spec fn view(&self) -> ActionModel {
        ActionModel {
            enable: self.enable,
            description: self.description@,
            arguments: arguments_view(self.arguments@),
            examples: examples_view(self.examples@),
        }
    }
}

/// A tool's manifest.
#[derive(Debug)]
pub struct Manifest {
    pub tool: ManifestTool,
    pub server: Option<ManifestServer>,
    pub actions: Vec<(String, ManifestToolAction)>,
}

/// The model of a [`Manifest`].
pub struct ManifestModel {
    pub tool: ManifestToolModel,
    pub server: Option<ManifestServer>,
    pub actions: Seq<(Seq<char>, ActionModel)>,
}

/// The models of named actions, in order.
pub open spec fn actions_view(s: Seq<(String, ManifestToolAction)>) -> Seq<
    (Seq<char>, ActionModel),
> {
    Seq::new(s.len(), |i: int| (s[i].0@, s[i].1@))
}

impl View for Manifest {
    type V = ManifestModel;

    open spec fn view(&self) -> ManifestModel {
        ManifestModel {
            tool: self.tool@,
            server: self.server,
            actions: actions_view(self.actions@),
        }
    }
}

/// A value that has to be a boolean.
pub open spec fn as_bool(v: Option<JsonModel>) -> Option<bool> {
    match v {
        Some(JsonModel::Bool(b)) => Some(b),
        _ => None,
    }
}

/// A value that has to be a string.
pub open spec fn as_text(v: Option<JsonModel>) -> Option<Seq<char>> {
    match v {
        Some(JsonModel::Str(s)) => Some(s),
        _ => None,
    }
}

/// A value that has to be a port: a number written in digits, at most 65535.
pub open spec fn as_port(v: Option<JsonModel>) -> Option<u16> {
    match v {
        Some(JsonModel::Number(n)) => if all_digits(n) && digits_value(n) <= 65535 {
            Some(digits_value(n) as u16)
        } else {
            None
        },
        _ => None,
    }
}

/// A string of a list of strings.
pub open spec fn text_item(v: JsonModel) -> Option<Seq<char>> {
    as_text(Some(v))
}

/// A list of strings; none if an item is no string.
pub open spec fn texts_of(items: Seq<JsonModel>) -> Option<Seq<Seq<char>>> {
    if forall|i: int| 0 <= i < items.len() ==> (#[trigger] text_item(items[i])) is Some {
        Some(Seq::new(items.len(), |i: int| text_item(items[i])->0))
    } else {
        None
    }
}

/// The `[tool]` table of a manifest: `enable`, `name` and `exec` are needed.
pub open spec fn tool_of(v: Option<JsonModel>) -> Option<ManifestToolModel> {
    match v {
        Some(JsonModel::Object(f)) => match (
            as_bool(lookup(f, "enable"@)),
            as_text(lookup(f, "name"@)),
            as_text(lookup(f, "exec"@)),
        ) {
            (Some(enable), Some(name), Some(executable)) => Some(
                ManifestToolModel { enable, name, executable },
            ),
            _ => None,
        },
        _ => None,
    }
}

/// The `[server]` table of a manifest: it may be absent (the inner `None`);
/// where it is there, it needs a `port`.
pub open spec fn server_of(v: Option<JsonModel>) -> Option<Option<ManifestServer>> {
    match v {
        None => Some(None),
        Some(JsonModel::Object(f)) => match as_port(lookup(f, "port"@)) {
            Some(port) => Some(Some(ManifestServer { port })),
            None => None,
        },
        Some(_) => None,
    }
}

/// The values that an argument may take: absent, or a list of strings.
pub open spec fn variants_of(v: Option<JsonModel>) -> Option<Option<Seq<Seq<char>>>> {
    match v {
        None => Some(None),
        Some(JsonModel::Array(items)) => match texts_of(items) {
            Some(texts) => Some(Some(texts)),
            None => None,
        },
        Some(_) => None,
    }
}

/// One argument: `format` and `optional` are needed, `variants` may be absent.
pub open spec fn argument_of(v: JsonModel) -> Option<ArgumentModel> {
    match v {
        JsonModel::Object(f) => match (
            as_text(lookup(f, "format"@)),
            variants_of(lookup(f, "variants"@)),
            as_bool(lookup(f, "optional"@)),
        ) {
            (Some(format), Some(variants), Some(optional)) => Some(
                ArgumentModel { format, variants, optional },
            ),
            _ => None,
        },
        _ => None,
    }
}

/// One argument under its name.
pub open spec fn named_argument(e: (Seq<char>, JsonModel)) -> Option<(Seq<char>, ArgumentModel)> {
    match argument_of(e.1) {
        Some(a) => Some((e.0, a)),
        None => None,
    }
}

/// The arguments of an action, each under its name; none if one of them
/// does not fit.
pub open spec fn arguments_of(fields: Seq<(Seq<char>, JsonModel)>) -> Option<
    Seq<(Seq<char>, ArgumentModel)>,
> {
    if forall|i: int| 0 <= i < fields.len() ==> (#[trigger] named_argument(fields[i])) is Some {
        Some(Seq::new(fields.len(), |i: int| named_argument(fields[i])->0))
    } else {
        None
    }
}

/// One example: a list of a query and the payload that answers it.
pub open spec fn example_of(v: JsonModel) -> Option<(Seq<char>, Seq<(Seq<char>, JsonModel)>)> {
    match v {
        JsonModel::Array(items) => if items.len() == 2 {
            match (items[0], items[1]) {
                (JsonModel::Str(query), JsonModel::Object(data)) => Some((query, data)),
                _ => None,
            }
        } else {
            None
        },
        _ => None,
    }
}

/// The examples of an action; none if one of them does not fit.
pub open spec fn examples_of(items: Seq<JsonModel>) -> Option<
    Seq<(Seq<char>, Seq<(Seq<char>, JsonModel)>)>,
> {
    if forall|i: int| 0 <= i < items.len() ==> (#[trigger] example_of(items[i])) is Some {
        Some(Seq::new(items.len(), |i: int| example_of(items[i])->0))
    } else {
        None
    }
}

/// One action: `enable`, `description`, `arguments` and `examples` are needed.
pub open spec fn action_of(v: JsonModel) -> Option<ActionModel> {
    match v {
        JsonModel::Object(f) => match (
            as_bool(lookup(f, "enable"@)),
            as_text(lookup(f, "description"@)),
            lookup(f, "arguments"@),
            lookup(f, "examples"@),
        ) {
            (
                Some(enable),
                Some(description),
                Some(JsonModel::Object(arguments)),
                Some(JsonModel::Array(examples)),
            ) => match (arguments_of(arguments), examples_of(examples)) {
                (Some(arguments), Some(examples)) => Some(
                    ActionModel { enable, description, arguments, examples },
                ),
                _ => None,
            },
            _ => None,
        },
        _ => None,
    }
}

/// One action under its name.
pub open spec fn named_action(e: (Seq<char>, JsonModel)) -> Option<(Seq<char>, ActionModel)> {
    match action_of(e.1) {
        Some(a) => Some((e.0, a)),
        None => None,
    }
}

/// The actions of a manifest, each under its name; none if one of them does
/// not fit.
pub open spec fn actions_of(fields: Seq<(Seq<char>, JsonModel)>) -> Option<
    Seq<(Seq<char>, ActionModel)>,
> {
    if forall|i: int| 0 <= i < fields.len() ==> (#[trigger] named_action(fields[i])) is Some {
        Some(Seq::new(fields.len(), |i: int| named_action(fields[i])->0))
    } else {
        None
    }
}

/// The manifest that a document holds, if it fits the schema: a `[tool]`
/// table, an optional `[server]` table, and an `[actions]` table of actions.
pub open spec fn manifest_of(doc: JsonModel) -> Option<ManifestModel> {
    match doc {
        JsonModel::Object(f) => match (
            tool_of(lookup(f, "tool"@)),
            server_of(lookup(f, "server"@)),
            lookup(f, "actions"@),
        ) {
            (Some(tool), Some(server), Some(JsonModel::Object(actions))) => match actions_of(
                actions,
            ) {
                Some(actions) => Some(ManifestModel { tool, server, actions }),
                None => None,
            },
            _ => None,
        },
        _ => None,
    }
}

/// The manifest that a TOML text holds, if it is well formed and fits the
/// schema.
pub open spec fn manifest_text(text: Seq<char>) -> Option<ManifestModel> {
    match toml_document(text) {
        Ok(doc) => manifest_of(doc),
        Err(_) => None,
    }
}

impl Clone for ManifestTool {
    fn clone(&self) -> (r: Self)
        ensures
            r@ == self@,
    {
        ManifestTool {
            enable: self.enable,
            name: self.name.clone(),
            executable: self.executable.clone(),
        }
    }
}

impl Clone for ManifestToolArgument {
    fn clone(&self) -> (r: Self)
        ensures
            r@ == self@,
    {
        ManifestToolArgument {
            format: self.format.clone(),
            variants: match &self.variants {
                Some(v) => Some(clone_strings(v)),
                None => None,
            },
            optional: self.optional,
        }
    }
}

impl Clone for ManifestToolAction {
    fn clone(&self) -> (r: Self)
        ensures
            r@ == self@,
    {
        let mut arguments: Vec<(String, ManifestToolArgument)> = Vec::new();
        let mut i: usize = 0;
        while i < self.arguments.len()
            invariant
                i <= self.arguments.len(),
                arguments.len() == i,
                forall|k: int|
                    0 <= k < i ==> arguments@[k].0@ == self.arguments@[k].0@ && arguments@[k].1@
                        == self.arguments@[k].1@,
            decreases self.arguments.len() - i,
        {
            arguments.push((self.arguments[i].0.clone(), self.arguments[i].1.clone()));
            i += 1;
        }
        let mut examples: Vec<(String, Vec<(String, JsonValue)>)> = Vec::new();
        let mut j: usize = 0;
        while j < self.examples.len()
            invariant
                j <= self.examples.len(),
                examples.len() == j,
                forall|k: int|
                    0 <= k < j ==> examples@[k].0@ == self.examples@[k].0@ && fields_view(
                        examples@[k].1@,
                    ) == fields_view(self.examples@[k].1@),
            decreases self.examples.len() - j,
        {
            examples.push((self.examples[j].0.clone(), clone_fields(&self.examples[j].1)));
            j += 1;
        }
        assert(arguments_view(arguments@) =~= arguments_view(self.arguments@));
        assert(examples_view(examples@) =~= examples_view(self.examples@));
        ManifestToolAction {
            enable: self.enable,
            description: self.description.clone(),
            arguments,
            examples,
        }
    }
}

impl Clone for Manifest {
    fn clone(&self) -> (r: Self)
        ensures
            r@ == self@,
    {
        let mut actions: Vec<(String, ManifestToolAction)> = Vec::new();
        let mut i: usize = 0;
        while i < self.actions.len()
            invariant
                i <= self.actions.len(),
                actions.len() == i,
                forall|k: int|
                    0 <= k < i ==> actions@[k].0@ == self.actions@[k].0@ && actions@[k].1@
                        == self.actions@[k].1@,
            decreases self.actions.len() - i,
        {
            actions.push((self.actions[i].0.clone(), self.actions[i].1.clone()));
            i += 1;
        }
        assert(actions_view(actions@) =~= actions_view(self.actions@));
        Manifest { tool: self.tool.clone(), server: self.server, actions }
    }
}

/// What reading a file gave: its text, or the cause of the failure.
pub open spec fn content_view(content: Result<String, String>) -> Result<Seq<char>, Seq<char>> {
    match content {
        Ok(t) => Ok(t@),
        Err(cause) => Err(cause@),
    }
}

/// What loading a manifest comes to: a file that could not be read fails
/// with the cause; a text that is no TOML document fails with the parser's
/// report, and a document that does not fit the schema with a text that says
/// so, both as content that cannot be parsed.
pub open spec fn loaded(path: Seq<char>, content: Result<Seq<char>, Seq<char>>) -> Result<
    ManifestModel,
    ErrorModel,
> {
    match content {
        Err(cause) => Err(ErrorModel::ManifestRead(path, cause)),
        Ok(text) => match toml_document(text) {
            Err(report) => Err(ErrorModel::ManifestParse(path, report)),
            Ok(doc) => match manifest_of(doc) {
                Some(m) => Ok(m),
                None => Err(
                    ErrorModel::ManifestParse(path, "the document does not fit the schema"@),
                ),
            },
        },
    }
}

/// Reads a value that has to be a boolean.
pub(crate) fn get_bool(v: Option<&JsonValue>) -> (r: Option<bool>)
    ensures
        r == as_bool(found(v)),
{
    match v {
        Some(JsonValue::Bool(b)) => Some(*b),
        _ => None,
    }
}

/// Reads a value that has to be a string.
pub(crate) fn get_text(v: Option<&JsonValue>) -> (r: Option<String>)
    ensures
        text_view(r) == as_text(found(v)),
{
    match v {
        Some(JsonValue::Str(s)) => Some(s.clone()),
        _ => None,
    }
}

/// Reads a value that has to be a port.
pub(crate) fn get_port(v: Option<&JsonValue>) -> (r: Option<u16>)
    ensures
        r == as_port(found(v)),
{
    match v {
        Some(JsonValue::Number(n)) => {
            let cs = chars_of(n.as_str());
            match parse_digits(cs.as_slice(), 65535) {
                Some(p) => Some(p as u16),
                None => None,
            }
        },
        _ => None,
    }
}

/// Reads a list of strings.
pub(crate) fn get_texts(items: &Vec<JsonValue>) -> (r: Option<Vec<String>>)
    ensures
        match r {
            Some(v) => texts_of(items_view(items@)) == Some(views(v@)),
            None => texts_of(items_view(items@)) is None,
        },
{
    let ghost model = items_view(items@);
    let mut out: Vec<String> = Vec::new();
    let mut i: usize = 0;
    while i < items.len()
        invariant
            i <= items.len(),
            model == items_view(items@),
            out.len() == i,
            forall|k: int|
                0 <= k < i ==> #[trigger] text_item(model[k]) == Some(out@[k]@),
        decreases items.len() - i,
    {
        assert(model[i as int] == items@[i as int]@);
        match get_text(Some(&items[i])) {
            Some(t) => {
                out.push(t);
            },
            None => {
                assert(text_item(model[i as int]) is None);
                return None;
            },
        }
        i += 1;
    }
    assert(texts_of(model)->0 =~= views(out@));
    Some(out)
}

impl ManifestTool {
    /// Reads the `[tool]` table.
    pub fn decode(v: Option<&JsonValue>) -> (r: Option<ManifestTool>)
        ensures
            match r {
                Some(t) => tool_of(found(v)) == Some(t@),
                None => tool_of(found(v)) is None,
            },
    {
        match v {
            Some(JsonValue::Object(f)) => {
                assert(v->0@ == JsonModel::Object(fields_view(f@)));
                let enable = match get_bool(find_field(f, "enable")) {
                    Some(b) => b,
                    None => { return None; },
                };
                let name = match get_text(find_field(f, "name")) {
                    Some(t) => t,
                    None => { return None; },
                };
                let executable = match get_text(find_field(f, "exec")) {
                    Some(t) => t,
                    None => { return None; },
                };
                Some(ManifestTool { enable, name, executable })
            },
            _ => None,
        }
    }
}

impl ManifestServer {
    /// Reads the `[server]` table; the outer `None` says that it does not
    /// fit, the inner one that there is none.
    pub fn decode(v: Option<&JsonValue>) -> (r: Option<Option<ManifestServer>>)
        ensures
            r == server_of(found(v)),
    {
        match v {
            None => Some(None),
            Some(JsonValue::Object(f)) => {
                assert(v->0@ == JsonModel::Object(fields_view(f@)));
                match get_port(find_field(f, "port")) {
                    Some(port) => Some(Some(ManifestServer { port })),
                    None => None,
                }
            },
            Some(_) => None,
        }
    }
}

impl ManifestToolArgument {
    /// Reads one argument of an action.
    pub fn decode(v: &JsonValue) -> (r: Option<ManifestToolArgument>)
        ensures
            match r {
                Some(a) => argument_of(v@) == Some(a@),
                None => argument_of(v@) is None,
            },
    {
        match v {
            JsonValue::Object(f) => {
                assert(v@ == JsonModel::Object(fields_view(f@)));
                let format = match get_text(find_field(f, "format")) {
                    Some(t) => t,
                    None => { return None; },
                };
                let variants = match find_field(f, "variants") {
                    None => None,
                    Some(JsonValue::Array(items)) => {
                        assert(lookup(fields_view(f@), "variants"@) == Some(
                            JsonModel::Array(items_view(items@)),
                        ));
                        match get_texts(items) {
                            Some(texts) => Some(texts),
                            None => { return None; },
                        }
                    },
                    Some(_) => { return None; },
                };
                let optional = match get_bool(find_field(f, "optional")) {
                    Some(b) => b,
                    None => { return None; },
                };
                Some(ManifestToolArgument { format, variants, optional })
            },
            _ => None,
        }
    }
}

/// Reads the arguments of an action.
fn get_arguments(fields: &Vec<(String, JsonValue)>) -> (r: Option<
    Vec<(String, ManifestToolArgument)>,
>)
    ensures
        match r {
            Some(v) => arguments_of(fields_view(fields@)) == Some(arguments_view(v@)),
            None => arguments_of(fields_view(fields@)) is None,
        },
{
    let ghost model = fields_view(fields@);
    let mut out: Vec<(String, ManifestToolArgument)> = Vec::new();
    let mut i: usize = 0;
    while i < fields.len()
        invariant
            i <= fields.len(),
            model == fields_view(fields@),
            out.len() == i,
            forall|k: int|
                0 <= k < i ==> #[trigger] named_argument(model[k]) == Some(
                    (out@[k].0@, out@[k].1@),
                ),
        decreases fields.len() - i,
    {
        assert(model[i as int] == (fields@[i as int].0@, fields@[i as int].1@));
        match ManifestToolArgument::decode(&fields[i].1) {
            Some(a) => {
                out.push((fields[i].0.clone(), a));
            },
            None => {
                assert(named_argument(model[i as int]) is None);
                return None;
            },
        }
        i += 1;
    }
    assert(arguments_of(model)->0 =~= arguments_view(out@));
    Some(out)
}

/// Reads one example of an action.
fn get_example(v: &JsonValue) -> (r: Option<(String, Vec<(String, JsonValue)>)>)
    ensures
        match r {
            Some(e) => example_of(v@) == Some((e.0@, fields_view(e.1@))),
            None => example_of(v@) is None,
        },
{
    match v {
        JsonValue::Array(items) => {
            assert(v@ == JsonModel::Array(items_view(items@)));
            if items.len() != 2 {
                return None;
            }
            assert(items_view(items@)[0] == items@[0]@);
            assert(items_view(items@)[1] == items@[1]@);
            match (&items[0], &items[1]) {
                (JsonValue::Str(query), JsonValue::Object(data)) => {
                    assert(items@[1]@ == JsonModel::Object(fields_view(data@)));
                    Some((query.clone(), clone_fields(data)))
                },
                _ => None,
            }
        },
        _ => None,
    }
}

/// Reads the examples of an action.
fn get_examples(items: &Vec<JsonValue>) -> (r: Option<Vec<(String, Vec<(String, JsonValue)>)>>)
    ensures
        match r {
            Some(v) => examples_of(items_view(items@)) == Some(examples_view(v@)),
            None => examples_of(items_view(items@)) is None,
        },
{
    let ghost model = items_view(items@);
    let mut out: Vec<(String, Vec<(String, JsonValue)>)> = Vec::new();
    let mut i: usize = 0;
    while i < items.len()
        invariant
            i <= items.len(),
            model == items_view(items@),
            out.len() == i,
            forall|k: int|
                0 <= k < i ==> #[trigger] example_of(model[k]) == Some(
                    (out@[k].0@, fields_view(out@[k].1@)),
                ),
        decreases items.len() - i,
    {
        assert(model[i as int] == items@[i as int]@);
        match get_example(&items[i]) {
            Some(e) => {
                out.push(e);
            },
            None => {
                assert(example_of(model[i as int]) is None);
                return None;
            },
        }
        i += 1;
    }
    assert(examples_of(model)->0 =~= examples_view(out@));
    Some(out)
}

impl ManifestToolAction {
    /// Reads one action.
    pub fn decode(v: &JsonValue) -> (r: Option<ManifestToolAction>)
        ensures
            match r {
                Some(a) => action_of(v@) == Some(a@),
                None => action_of(v@) is None,
            },
    {
        match v {
            JsonValue::Object(f) => {
                assert(v@ == JsonModel::Object(fields_view(f@)));
                let enable = match get_bool(find_field(f, "enable")) {
                    Some(b) => b,
                    None => { return None; },
                };
                let description = match get_text(find_field(f, "description")) {
                    Some(t) => t,
                    None => { return None; },
                };
                let arguments = match find_field(f, "arguments") {
                    Some(JsonValue::Object(a)) => {
                        assert(lookup(fields_view(f@), "arguments"@) == Some(
                            JsonModel::Object(fields_view(a@)),
                        ));
                        a
                    },
                    _ => { return None; },
                };
                let examples = match find_field(f, "examples") {
                    Some(JsonValue::Array(e)) => {
                        assert(lookup(fields_view(f@), "examples"@) == Some(
                            JsonModel::Array(items_view(e@)),
                        ));
                        e
                    },
                    _ => { return None; },
                };
                let arguments = match get_arguments(arguments) {
                    Some(a) => a,
                    None => { return None; },
                };
                let examples = match get_examples(examples) {
                    Some(e) => e,
                    None => { return None; },
                };
                Some(ManifestToolAction { enable, description, arguments, examples })
            },
            _ => None,
        }
    }
}

/// Reads the actions of a manifest.
fn get_actions(fields: &Vec<(String, JsonValue)>) -> (r: Option<Vec<(String, ManifestToolAction)>>)
    ensures
        match r {
            Some(v) => actions_of(fields_view(fields@)) == Some(actions_view(v@)),
            None => actions_of(fields_view(fields@)) is None,
        },
{
    let ghost model = fields_view(fields@);
    let mut out: Vec<(String, ManifestToolAction)> = Vec::new();
    let mut i: usize = 0;
    while i < fields.len()
        invariant
            i <= fields.len(),
            model == fields_view(fields@),
            out.len() == i,
            forall|k: int|
                0 <= k < i ==> #[trigger] named_action(model[k]) == Some(
                    (out@[k].0@, out@[k].1@),
                ),
        decreases fields.len() - i,
    {
        assert(model[i as int] == (fields@[i as int].0@, fields@[i as int].1@));
        match ManifestToolAction::decode(&fields[i].1) {
            Some(a) => {
                out.push((fields[i].0.clone(), a));
            },
            None => {
                assert(named_action(model[i as int]) is None);
                return None;
            },
        }
        i += 1;
    }
    assert(actions_of(model)->0 =~= actions_view(out@));
    Some(out)
}

impl Manifest {
    /// Reads a manifest from a parsed document.
    pub fn decode(doc: &JsonValue) -> (r: Option<Manifest>)
        ensures
            match r {
                Some(m) => manifest_of(doc@) == Some(m@),
                None => manifest_of(doc@) is None,
            },
    {
        match doc {
            JsonValue::Object(f) => {
                assert(doc@ == JsonModel::Object(fields_view(f@)));
                let tool = match ManifestTool::decode(find_field(f, "tool")) {
                    Some(t) => t,
                    None => { return None; },
                };
                let server = match ManifestServer::decode(find_field(f, "server")) {
                    Some(s) => s,
                    None => { return None; },
                };
                let actions = match find_field(f, "actions") {
                    Some(JsonValue::Object(a)) => {
                        assert(lookup(fields_view(f@), "actions"@) == Some(
                            JsonModel::Object(fields_view(a@)),
                        ));
                        a
                    },
                    _ => { return None; },
                };
                let actions = match get_actions(actions) {
                    Some(a) => a,
                    None => { return None; },
                };
                Some(Manifest { tool, server, actions })
            },
            _ => None,
        }
    }

    /// Loads a manifest by what reading its file gave: the text, or the
    /// cause for which it could not be read. A file that cannot be read and
    /// a text that holds no manifest fail in different ways.
    pub fn load(path: &str, content: Result<String, String>) -> (r: Result<Manifest, Error>)
        ensures
            match r {
                Ok(m) => loaded(path@, content_view(content)) == Ok::<ManifestModel, ErrorModel>(
                    m@,
                ),
                Err(e) => loaded(path@, content_view(content)) == Err::<
                    ManifestModel,
                    ErrorModel,
                >(e@),
            },
    {
        let text = match content {
            Ok(t) => t,
            Err(cause) => { return Err(Error::ManifestRead(String::from_str(path), cause)); },
        };
        let doc = match parse_toml(text.as_str()) {
            Ok(d) => d,
            Err(report) => { return Err(Error::ManifestParse(String::from_str(path), report)); },
        };
        match Manifest::decode(&doc) {
            Some(m) => Ok(m),
            None => Err(
                Error::ManifestParse(
                    String::from_str(path),
                    String::from_str("the document does not fit the schema"),
                ),
            ),
        }
    }

    /// Reads a manifest from the text of its file.
    pub fn parse(text: &str) -> (r: Option<Manifest>)
        ensures
            match r {
                Some(m) => manifest_text(text@) == Some(m@),
                None => manifest_text(text@) is None,
            },
    {
        match parse_toml(text) {
            Ok(doc) => Manifest::decode(&doc),
            Err(_) => None,
        }
    }
}

} // verus!
